use vstd::prelude::*;
use crate::clock::{rfc3339, rfc3339_text};
use crate::text::text_of;
use crate::json::{json_string_member, string_member};
use crate::models::metrics::{clone_processes, ProcessMetrics, ServerMetrics, ServerMetricsView};
use crate::monitoring::sample_view;
use crate::text::{joined, owned, same_text};

verus! {

/// The server pings the client every five seconds.
pub const HEARTBEAT_INTERVAL: u64 = 5_000;

/// A client that has sent neither ping nor pong for longer than ten seconds
/// is given up.
pub const CLIENT_TIMEOUT: u64 = 10_000;

/// A subscribed client gets a frame every second.
pub const METRICS_INTERVAL: u64 = 1_000;

/// The name under which a session keeps its heartbeat task.
pub const HEARTBEAT_STREAM: &'static str = "heartbeat";

/// The name under which a session keeps the push task of a server:
/// `metrics_` and the server's id.
pub fn stream_name(server_id: &str) -> (r: String)
    ensures
        r@ == "metrics_"@ + server_id@,
{
    joined("metrics_", server_id)
}

/// Why a peer closes the connection.
#[derive(Debug, PartialEq, Eq)]
pub struct CloseReason {
    pub code: u16,
    pub description: Option<String>,
}

/// A frame that arrived from the client.
#[derive(Debug)]
pub enum Inbound {
    Ping(Vec<u8>),
    Pong,
    Text(String),
    Close(Option<CloseReason>),
    /// Binary data, a continuation, or a frame that broke the protocol.
    Other,
}

/// What a text frame asks for.
#[derive(Debug, PartialEq, Eq)]
pub enum ControlFrame {
    Subscribe { server_id: String },
    Unsubscribe,
    /// Anything that is no well-formed control message.
    Ignored,
}

pub enum ControlFrameView {
    Subscribe { server_id: Seq<char> },
    Unsubscribe,
    Ignored,
}

impl View for ControlFrame {
    type V = ControlFrameView;

    open spec fn view(&self) -> ControlFrameView {
        match self {
            ControlFrame::Subscribe { server_id } => ControlFrameView::Subscribe {
                server_id: server_id@,
            },
            ControlFrame::Unsubscribe => ControlFrameView::Unsubscribe,
            ControlFrame::Ignored => ControlFrameView::Ignored,
        }
    }
}

/// A frame for the client.
#[derive(Debug, PartialEq, Eq)]
pub enum OutboundFrame {
    /// The latest sample of the subscribed server. Usage figures are in
    /// hundredths of a percent, `network_usage` in bytes.
    ResourceMetrics {
        server_id: String,
        cpu_usage: u32,
        memory_usage: u32,
        disk_usage: u32,
        network_usage: u64,
        process_count: usize,
        processes: Vec<ProcessMetrics>,
        timestamp: String,
    },
    /// No sample of the subscribed server is to be had.
    Error { message: String, server_id: String },
}

pub enum OutboundFrameView {
    ResourceMetrics {
        server_id: Seq<char>,
        cpu_usage: u32,
        memory_usage: u32,
        disk_usage: u32,
        network_usage: u64,
        process_count: usize,
        processes: Seq<ProcessMetrics>,
        timestamp: Seq<char>,
    },
    Error { message: Seq<char>, server_id: Seq<char> },
}

impl View for OutboundFrame {
    type V = OutboundFrameView;

    open spec fn view(&self) -> OutboundFrameView {
        match self {
            OutboundFrame::ResourceMetrics {
                server_id,
                cpu_usage,
                memory_usage,
                disk_usage,
                network_usage,
                process_count,
                processes,
                timestamp,
            } => OutboundFrameView::ResourceMetrics {
                server_id: server_id@,
                cpu_usage: *cpu_usage,
                memory_usage: *memory_usage,
                disk_usage: *disk_usage,
                network_usage: *network_usage,
                process_count: *process_count,
                processes: processes@,
                timestamp: timestamp@,
            },
            OutboundFrame::Error { message, server_id } => OutboundFrameView::Error {
                message: message@,
                server_id: server_id@,
            },
        }
    }
}

impl OutboundFrameView {
    /// The server that the frame speaks of.
    pub open spec fn server_id(self) -> Seq<char> {
        match self {
            OutboundFrameView::ResourceMetrics { server_id, .. } => server_id,
            OutboundFrameView::Error { server_id, .. } => server_id,
        }
    }
}

/// The contents of an optional frame.
pub open spec fn frame_view(frame: Option<OutboundFrame>) -> Option<OutboundFrameView> {
    match frame {
        Some(f) => Some(f@),
        None => None,
    }
}

/// What the caller has to carry out after an event of the session.
#[derive(Debug, PartialEq, Eq)]
pub enum SessionAction {
    /// Launch the heartbeat task.
    StartHeartbeat,
    /// Send a ping.
    Ping,
    /// Answer a ping with its payload.
    Pong(Vec<u8>),
    /// Send a close frame.
    Close(Option<CloseReason>),
    /// End the session and its heartbeat task.
    Stop,
    /// Launch the push task of the server.
    StartPush { server_id: String },
    /// Cancel the push task of the server.
    CancelPush { server_id: String },
}

pub enum SessionActionView {
    StartHeartbeat,
    Ping,
    Pong(Seq<u8>),
    Close(Option<CloseReason>),
    Stop,
    StartPush { server_id: Seq<char> },
    CancelPush { server_id: Seq<char> },
}

impl View for SessionAction {
    type V = SessionActionView;

    open spec fn view(&self) -> SessionActionView {
        match self {
            SessionAction::StartHeartbeat => SessionActionView::StartHeartbeat,
            SessionAction::Ping => SessionActionView::Ping,
            SessionAction::Pong(payload) => SessionActionView::Pong(payload@),
            SessionAction::Close(reason) => SessionActionView::Close(*reason),
            SessionAction::Stop => SessionActionView::Stop,
            SessionAction::StartPush { server_id } => SessionActionView::StartPush {
                server_id: server_id@,
            },
            SessionAction::CancelPush { server_id } => SessionActionView::CancelPush {
                server_id: server_id@,
            },
        }
    }
}

/// The contents of a list of actions.
pub open spec fn action_views(actions: Seq<SessionAction>) -> Seq<SessionActionView> {
    actions.map_values(|a: SessionAction| a@)
}

/// Where a session stands.
pub enum SessionPhase {
    /// Open, without a subscription.
    Connected,
    /// Open, with frames of one server being pushed.
    Subscribed { server_id: Seq<char> },
    /// Closed for good.
    Closed,
}

/// What a session holds: its phase and the instant, in milliseconds, at
/// which the client last gave a sign of life.
pub struct SessionView {
    pub phase: SessionPhase,
    pub last_heartbeat: u64,
}

/// The text frame means: a subscription where the type is `subscribe` and a
/// server is named, the end of the subscription where the type is
/// `unsubscribe`, and nothing otherwise.
pub open spec fn control_of(kind: Option<Seq<char>>, server_id: Option<Seq<char>>) -> ControlFrameView {
    if kind == Some("subscribe"@) && server_id is Some {
        ControlFrameView::Subscribe { server_id: server_id->Some_0 }
    } else if kind == Some("unsubscribe"@) {
        ControlFrameView::Unsubscribe
    } else {
        ControlFrameView::Ignored
    }
}

/// The control message that a text frame holds.
pub open spec fn control_in(text: Seq<char>) -> ControlFrameView {
    control_of(json_string_member(text, "type"@), json_string_member(text, "server_id"@))
}

/// The order to cancel the push task of the current subscription, if there
/// is one.
pub open spec fn cancel_current(phase: SessionPhase) -> Seq<SessionActionView> {
    match phase {
        SessionPhase::Subscribed { server_id } => seq![SessionActionView::CancelPush { server_id }],
        _ => Seq::empty(),
    }
}

/// The session after a control message, with the actions that it asks for.
/// A subscription replaces the current one; a closed session takes nothing.
pub open spec fn after_command(session: SessionView, command: ControlFrameView) -> (
    SessionView,
    Seq<SessionActionView>,
) {
    match session.phase {
        SessionPhase::Closed => (session, Seq::empty()),
        _ => match command {
            ControlFrameView::Subscribe { server_id } => (
                SessionView { phase: SessionPhase::Subscribed { server_id }, ..session },
                cancel_current(session.phase) + seq![SessionActionView::StartPush { server_id }],
            ),
            ControlFrameView::Unsubscribe => (
                SessionView { phase: SessionPhase::Connected, ..session },
                cancel_current(session.phase),
            ),
            ControlFrameView::Ignored => (session, Seq::empty()),
        },
    }
}

/// The session after the session ends, by a close frame or by a timeout.
pub open spec fn closed(session: SessionView) -> SessionView {
    SessionView { phase: SessionPhase::Closed, ..session }
}

/// Milliseconds from `earlier` to `now`; none if `now` is the earlier one.
pub open spec fn elapsed(now: u64, earlier: u64) -> int {
    if now >= earlier {
        now - earlier
    } else {
        0
    }
}

/// The session after a heartbeat tick at `now`: a client that has been
/// silent for longer than the timeout is given up, any other is pinged.
pub open spec fn after_heartbeat(session: SessionView, now: u64) -> (
    SessionView,
    Seq<SessionActionView>,
) {
    match session.phase {
        SessionPhase::Closed => (session, Seq::empty()),
        _ => if elapsed(now, session.last_heartbeat) > CLIENT_TIMEOUT {
            (closed(session), cancel_current(session.phase) + seq![SessionActionView::Stop])
        } else {
            (session, seq![SessionActionView::Ping])
        },
    }
}

/// Half of the bytes received and sent, rounded down.
pub open spec fn network_usage_of(sample: ServerMetricsView) -> u64 {
    ((sample.network_rx + sample.network_tx) / 2) as u64
}

/// The frame that carries `sample` of `server_id`, stamped `stamp`.
pub open spec fn metrics_frame(
    server_id: Seq<char>,
    sample: ServerMetricsView,
    stamp: Seq<char>,
) -> OutboundFrameView {
    OutboundFrameView::ResourceMetrics {
        server_id,
        cpu_usage: sample.cpu_usage,
        memory_usage: sample.memory_usage,
        disk_usage: sample.disk_usage,
        network_usage: network_usage_of(sample),
        process_count: sample.processes.len() as usize,
        processes: sample.processes,
        timestamp: stamp,
    }
}

/// The frame that tells the client that `server_id` has no sample.
pub open spec fn error_frame(server_id: Seq<char>) -> OutboundFrameView {
    OutboundFrameView::Error { message: "Failed to get metrics"@, server_id }
}

/// What a push tick sends: to a subscribed client the sample of its server,
/// or the error frame where the server has none; nothing to a client that is
/// not subscribed, and nothing where the instant of the tick has no text form.
pub open spec fn pushed(
    session: SessionView,
    sample: Option<ServerMetricsView>,
    stamp: Option<Seq<char>>,
) -> Option<OutboundFrameView> {
    match session.phase {
        SessionPhase::Subscribed { server_id } => match sample {
            Some(s) => match stamp {
                Some(t) => Some(metrics_frame(server_id, s, t)),
                None => None,
            },
            None => Some(error_frame(server_id)),
        },
        _ => None,
    }
}

/// Reads a control message off the two members of a text frame.
pub fn classify(kind: Option<String>, server_id: Option<String>) -> (r: ControlFrame)
    ensures
        r@ == control_of(text_of(kind), text_of(server_id)),
{
    proof {
        reveal_strlit("subscribe");
        reveal_strlit("unsubscribe");
        assert("subscribe"@ != "unsubscribe"@) by {
            assert("subscribe"@.len() == 9);
            assert("unsubscribe"@.len() == 11);
        }
    }
    match kind {
        Some(name) => {
            if same_text(name.as_str(), "subscribe") {
                match server_id {
                    Some(id) => ControlFrame::Subscribe { server_id: id },
                    None => ControlFrame::Ignored,
                }
            } else if same_text(name.as_str(), "unsubscribe") {
                ControlFrame::Unsubscribe
            } else {
                ControlFrame::Ignored
            }
        },
        None => ControlFrame::Ignored,
    }
}

/// Parses a text frame as a control message. A frame that is no JSON
/// object, or has no known type, is ignored.
pub fn parse_command(text: &str) -> (r: ControlFrame)
    ensures
        r@ == control_in(text@),
{
    let kind = string_member(text, "type");
    let server_id = string_member(text, "server_id");
    classify(kind, server_id)
}

/// The session after a frame from the client that arrived at `now`, with
/// the actions that it asks for. A ping or a pong is a sign of life; a text
/// frame is a control message; a close frame is answered and ends the
/// session; a closed session takes nothing.
pub open spec fn after_frame(session: SessionView, frame: Inbound, now: u64) -> (
    SessionView,
    Seq<SessionActionView>,
) {
    match session.phase {
        SessionPhase::Closed => (session, Seq::empty()),
        _ => match frame {
            Inbound::Ping(payload) => (
                SessionView { last_heartbeat: now, ..session },
                seq![SessionActionView::Pong(payload@)],
            ),
            Inbound::Pong => (SessionView { last_heartbeat: now, ..session }, Seq::empty()),
            Inbound::Text(text) => after_command(session, control_in(text@)),
            Inbound::Close(reason) => (
                closed(session),
                cancel_current(session.phase) + seq![
                    SessionActionView::Close(reason),
                    SessionActionView::Stop,
                ],
            ),
            Inbound::Other => (session, Seq::empty()),
        },
    }
}

/// The state of one client connection: liveness and at most one
/// subscription.
///
/// The session decides; the caller owns the socket and the timers. Every
/// event returns the actions to carry out.
#[derive(Debug)]
pub struct WebSocketConnection {
    last_heartbeat: u64,
    server_id: Option<String>,
    closed: bool,
}

impl View for WebSocketConnection {
    type V = SessionView;

    closed spec fn view(&self) -> SessionView {
        SessionView {
            phase: if self.closed {
                SessionPhase::Closed
            } else {
                match self.server_id {
                    Some(id) => SessionPhase::Subscribed { server_id: id@ },
                    None => SessionPhase::Connected,
                }
            },
            last_heartbeat: self.last_heartbeat,
        }
    }
}

impl WebSocketConnection {
    /// A session that opens at `now`, without a subscription.
    pub fn new(now: u64) -> (r: Self)
        ensures
            r@ == (SessionView { phase: SessionPhase::Connected, last_heartbeat: now }),
    {
        WebSocketConnection { last_heartbeat: now, server_id: None, closed: false }
    }

    /// The instant of the client's last sign of life.
    pub fn last_heartbeat(&self) -> (r: u64)
        ensures
            r == self@.last_heartbeat,
    {
        self.last_heartbeat
    }

    /// The server that the client is subscribed to.
    pub fn server_id(&self) -> (r: Option<String>)
        ensures
            text_of(r) == (match self@.phase {
                SessionPhase::Subscribed { server_id } => Some(server_id),
                _ => None,
            }),
    {
        if self.closed {
            None
        } else {
            match &self.server_id {
                Some(id) => Some(id.clone()),
                None => None,
            }
        }
    }

    pub fn is_closed(&self) -> (r: bool)
        ensures
            r == (self@.phase == SessionPhase::Closed),
    {
        self.closed
    }

    /// What a session asks for when it opens: its heartbeat task.
    pub fn started(&self) -> (actions: Vec<SessionAction>)
        ensures
            action_views(actions@) == seq![SessionActionView::StartHeartbeat],
    {
        let mut actions: Vec<SessionAction> = Vec::new();
        actions.push(SessionAction::StartHeartbeat);
        assert(action_views(actions@) =~= seq![SessionActionView::StartHeartbeat]);
        actions
    }

    /// The order to launch the push task of the current subscription.
    pub fn start_metrics_stream(&self) -> (actions: Vec<SessionAction>)
        ensures
            action_views(actions@) == (match self@.phase {
                SessionPhase::Subscribed { server_id } => seq![
                    SessionActionView::StartPush { server_id },
                ],
                _ => Seq::empty(),
            }),
    {
        let mut actions: Vec<SessionAction> = Vec::new();
        if !self.closed {
            match &self.server_id {
                Some(id) => {
                    actions.push(SessionAction::StartPush { server_id: id.clone() });
                },
                None => {},
            }
        }
        assert(action_views(actions@) =~= (match self@.phase {
            SessionPhase::Subscribed { server_id } => seq![SessionActionView::StartPush { server_id }],
            _ => Seq::empty(),
        }));
        actions
    }

    /// The order to cancel the push task of the current subscription.
    pub fn stop_metrics_stream(&self) -> (actions: Vec<SessionAction>)
        ensures
            action_views(actions@) == cancel_current(self@.phase),
    {
        let mut actions: Vec<SessionAction> = Vec::new();
        if !self.closed {
            match &self.server_id {
                Some(id) => {
                    actions.push(SessionAction::CancelPush { server_id: id.clone() });
                },
                None => {},
            }
        }
        assert(action_views(actions@) =~= cancel_current(self@.phase));
        actions
    }

    /// Carries out a control message: a subscription replaces the current
    /// one, whose push task is cancelled first.
    pub fn handle_command(&mut self, command: ControlFrame) -> (actions: Vec<SessionAction>)
        ensures
            (final(self)@, action_views(actions@)) == after_command(old(self)@, command@),
    {
        if self.closed {
            let actions: Vec<SessionAction> = Vec::new();
            assert(action_views(actions@) =~= Seq::empty());
            return actions;
        }
        match command {
            ControlFrame::Subscribe { server_id } => {
                let mut actions = self.stop_metrics_stream();
                actions.push(SessionAction::StartPush { server_id: server_id.clone() });
                self.server_id = Some(server_id);
                assert(action_views(actions@) =~= after_command(old(self)@, command@).1);
                actions
            },
            ControlFrame::Unsubscribe => {
                let actions = self.stop_metrics_stream();
                self.server_id = None;
                actions
            },
            ControlFrame::Ignored => {
                let actions: Vec<SessionAction> = Vec::new();
                assert(action_views(actions@) =~= Seq::empty());
                actions
            },
        }
    }

    /// One heartbeat tick at `now`.
    pub fn heartbeat(&mut self, now: u64) -> (actions: Vec<SessionAction>)
        ensures
            (final(self)@, action_views(actions@)) == after_heartbeat(old(self)@, now),
    {
        if self.closed {
            let actions: Vec<SessionAction> = Vec::new();
            assert(action_views(actions@) =~= Seq::empty());
            return actions;
        }
        let silent: u64 = if now >= self.last_heartbeat {
            now - self.last_heartbeat
        } else {
            0
        };
        if silent > CLIENT_TIMEOUT {
            let mut actions = self.stop_metrics_stream();
            actions.push(SessionAction::Stop);
            self.closed = true;
            assert(action_views(actions@) =~= after_heartbeat(old(self)@, now).1);
            actions
        } else {
            let mut actions: Vec<SessionAction> = Vec::new();
            actions.push(SessionAction::Ping);
            assert(action_views(actions@) =~= seq![SessionActionView::Ping]);
            actions
        }
    }

    /// Takes a frame from the client that arrived at `now`.
    pub fn handle(&mut self, frame: Inbound, now: u64) -> (actions: Vec<SessionAction>)
        ensures
            (final(self)@, action_views(actions@)) == after_frame(old(self)@, frame, now),
    {
        if self.closed {
            let actions: Vec<SessionAction> = Vec::new();
            assert(action_views(actions@) =~= Seq::empty());
            return actions;
        }
        match frame {
            Inbound::Ping(payload) => {
                self.last_heartbeat = now;
                let mut actions: Vec<SessionAction> = Vec::new();
                actions.push(SessionAction::Pong(payload));
                assert(action_views(actions@) =~= seq![SessionActionView::Pong(payload@)]);
                actions
            },
            Inbound::Pong => {
                self.last_heartbeat = now;
                let actions: Vec<SessionAction> = Vec::new();
                assert(action_views(actions@) =~= Seq::empty());
                actions
            },
            Inbound::Text(text) => {
                let command = parse_command(text.as_str());
                self.handle_command(command)
            },
            Inbound::Close(reason) => {
                let mut actions = self.stop_metrics_stream();
                actions.push(SessionAction::Close(reason));
                actions.push(SessionAction::Stop);
                self.closed = true;
                assert(action_views(actions@) =~= after_frame(old(self)@, frame, now).1);
                actions
            },
            Inbound::Other => {
                let actions: Vec<SessionAction> = Vec::new();
                assert(action_views(actions@) =~= Seq::empty());
                actions
            },
        }
    }

    /// The session ends because the transport is gone: what is left is to
    /// cancel the push task.
    pub fn stopped(&mut self) -> (actions: Vec<SessionAction>)
        ensures
            final(self)@ == closed(old(self)@),
            action_views(actions@) == cancel_current(old(self)@.phase),
    {
        let actions = self.stop_metrics_stream();
        self.closed = true;
        actions
    }

    /// The frame of one push tick, given the sample that the registry has
    /// for the subscribed server and the text form of the instant.
    pub fn push_frame(&self, sample: &Option<ServerMetrics>, stamp: Option<String>) -> (r: Option<
        OutboundFrame,
    >)
        ensures
            frame_view(r) == pushed(self@, sample_view(*sample), text_of(stamp)),
    {
        if self.closed {
            return None;
        }
        match &self.server_id {
            Some(id) => match sample {
                Some(s) => match stamp {
                    Some(timestamp) => {
                        let total: u128 = s.network_rx as u128 + s.network_tx as u128;
                        Some(
                            OutboundFrame::ResourceMetrics {
                                server_id: id.clone(),
                                cpu_usage: s.cpu_usage,
                                memory_usage: s.memory_usage,
                                disk_usage: s.disk_usage,
                                network_usage: (total / 2) as u64,
                                process_count: s.processes.len(),
                                processes: clone_processes(&s.processes),
                                timestamp,
                            },
                        )
                    },
                    None => None,
                },
                None => Some(
                    OutboundFrame::Error {
                        message: owned("Failed to get metrics"),
                        server_id: id.clone(),
                    },
                ),
            },
            None => None,
        }
    }

    /// The frame of one push tick at `now`, in milliseconds since the Unix
    /// epoch.
    pub fn send_metrics(&self, sample: &Option<ServerMetrics>, now: i64) -> (r: Option<OutboundFrame>)
        ensures
            frame_view(r) == pushed(self@, sample_view(*sample), rfc3339_text(now as int)),
    {
        let stamp = rfc3339(now);
        self.push_frame(sample, stamp)
    }
}

/// What a list of actions does to the number of live push tasks of
/// `server_id`: a start adds one, a cancellation takes one away.
pub open spec fn pushes_after(live: int, actions: Seq<SessionActionView>, server_id: Seq<char>) -> int
    decreases actions.len(),
{
    if actions.len() == 0 {
        live
    } else {
        let before = pushes_after(live, actions.drop_last(), server_id);
        match actions.last() {
            SessionActionView::StartPush { server_id: id } => if id == server_id {
                before + 1
            } else {
                before
            },
            SessionActionView::CancelPush { server_id: id } => if id == server_id {
                before - 1
            } else {
                before
            },
            _ => before,
        }
    }
}

/// The number of push tasks that a session owes a server: one for the
/// server that it is subscribed to, none for any other.
pub open spec fn pushes_owed(session: SessionView, server_id: Seq<char>) -> int {
    if session.phase == (SessionPhase::Subscribed { server_id }) {
        1
    } else {
        0
    }
}

proof fn lemma_pushes_one(live: int, action: SessionActionView, server_id: Seq<char>)
    ensures
        pushes_after(live, seq![action], server_id) == (match action {
            SessionActionView::StartPush { server_id: id } => if id == server_id {
                live + 1
            } else {
                live
            },
            SessionActionView::CancelPush { server_id: id } => if id == server_id {
                live - 1
            } else {
                live
            },
            _ => live,
        }),
{
    assert(seq![action].drop_last() =~= Seq::<SessionActionView>::empty());
    assert(seq![action].last() == action);
    assert(pushes_after(live, Seq::empty(), server_id) == live);
}

proof fn lemma_pushes_joined(
    live: int,
    first: Seq<SessionActionView>,
    second: Seq<SessionActionView>,
    server_id: Seq<char>,
)
    ensures
        pushes_after(live, first + second, server_id) == pushes_after(
            pushes_after(live, first, server_id),
            second,
            server_id,
        ),
    decreases second.len(),
{
    if second.len() == 0 {
        assert(first + second =~= first);
    } else {
        assert((first + second).drop_last() =~= first + second.drop_last());
        assert((first + second).last() == second.last());
        lemma_pushes_joined(live, first, second.drop_last(), server_id);
    }
}

proof fn lemma_pushes_cancelled(session: SessionView, server_id: Seq<char>)
    ensures
        pushes_after(pushes_owed(session, server_id), cancel_current(session.phase), server_id)
            == 0,
{
    match session.phase {
        SessionPhase::Subscribed { server_id: current } => {
            lemma_pushes_one(
                pushes_owed(session, server_id),
                SessionActionView::CancelPush { server_id: current },
                server_id,
            );
        },
        _ => {},
    }
}

/// A control message keeps the push tasks in step with the session: if
/// before it the server that the session is subscribed to had one push task
/// and every other server none, the same holds once the caller has carried
/// out the actions of the message.
pub proof fn lemma_command_keeps_one_push(
    session: SessionView,
    command: ControlFrameView,
    server_id: Seq<char>,
)
    ensures
        pushes_after(pushes_owed(session, server_id), after_command(session, command).1, server_id)
            == pushes_owed(after_command(session, command).0, server_id),
{
    let owed = pushes_owed(session, server_id);
    lemma_pushes_cancelled(session, server_id);
    if session.phase != SessionPhase::Closed {
        match command {
            ControlFrameView::Subscribe { server_id: wanted } => {
                let start = SessionActionView::StartPush { server_id: wanted };
                lemma_pushes_joined(owed, cancel_current(session.phase), seq![start], server_id);
                lemma_pushes_one(0, start, server_id);
            },
            _ => {},
        }
    }
}

/// A heartbeat tick keeps the push tasks in step with the session.
pub proof fn lemma_heartbeat_keeps_one_push(session: SessionView, now: u64, server_id: Seq<char>)
    ensures
        pushes_after(pushes_owed(session, server_id), after_heartbeat(session, now).1, server_id)
            == pushes_owed(after_heartbeat(session, now).0, server_id),
{
    let owed = pushes_owed(session, server_id);
    lemma_pushes_cancelled(session, server_id);
    if session.phase != SessionPhase::Closed {
        if elapsed(now, session.last_heartbeat) > CLIENT_TIMEOUT {
            lemma_pushes_joined(
                owed,
                cancel_current(session.phase),
                seq![SessionActionView::Stop],
                server_id,
            );
            lemma_pushes_one(0, SessionActionView::Stop, server_id);
        } else {
            lemma_pushes_one(owed, SessionActionView::Ping, server_id);
        }
    }
}

/// A frame from the client keeps the push tasks in step with the session.
pub proof fn lemma_frame_keeps_one_push(
    session: SessionView,
    frame: Inbound,
    now: u64,
    server_id: Seq<char>,
)
    ensures
        pushes_after(pushes_owed(session, server_id), after_frame(session, frame, now).1, server_id)
            == pushes_owed(after_frame(session, frame, now).0, server_id),
{
    let owed = pushes_owed(session, server_id);
    lemma_pushes_cancelled(session, server_id);
    if session.phase != SessionPhase::Closed {
        match frame {
            Inbound::Ping(payload) => {
                lemma_pushes_one(owed, SessionActionView::Pong(payload@), server_id);
            },
            Inbound::Text(text) => {
                lemma_command_keeps_one_push(session, control_in(text@), server_id);
            },
            Inbound::Close(reason) => {
                let farewell = seq![SessionActionView::Close(reason), SessionActionView::Stop];
                lemma_pushes_joined(owed, cancel_current(session.phase), farewell, server_id);
                assert(farewell.drop_last() =~= seq![SessionActionView::Close(reason)]);
                lemma_pushes_one(0, SessionActionView::Close(reason), server_id);
            },
            _ => {},
        }
    }
}

/// A session whose client has been silent for longer than the timeout is
/// closed by the next heartbeat tick, which also ends its push task.
pub proof fn lemma_silent_session_is_closed(session: SessionView, now: u64)
    requires
        session.phase != SessionPhase::Closed,
        elapsed(now, session.last_heartbeat) > CLIENT_TIMEOUT,
    ensures
        after_heartbeat(session, now).0.phase == SessionPhase::Closed,
        after_heartbeat(session, now).1 == cancel_current(session.phase) + seq![
            SessionActionView::Stop,
        ],
        after_heartbeat(session, now).1.last() == SessionActionView::Stop,
{
}

/// A session whose client gave a sign of life within the timeout stays open
/// and is pinged; a ping or a pong from the client is such a sign.
pub proof fn lemma_live_session_is_pinged(session: SessionView, payload: Vec<u8>, at: u64, now: u64)
    requires
        session.phase != SessionPhase::Closed,
        elapsed(now, at) <= CLIENT_TIMEOUT,
    ensures
        after_frame(session, Inbound::Ping(payload), at).0.last_heartbeat == at,
        after_frame(session, Inbound::Pong, at).0.last_heartbeat == at,
        after_heartbeat(after_frame(session, Inbound::Ping(payload), at).0, now) == (
            after_frame(session, Inbound::Ping(payload), at).0,
            seq![SessionActionView::Ping],
        ),
        after_heartbeat(after_frame(session, Inbound::Pong, at).0, now) == (
            after_frame(session, Inbound::Pong, at).0,
            seq![SessionActionView::Ping],
        ),
{
}

/// A closed session stays closed: no frame, control message or tick changes
/// it or asks for anything, and nothing is pushed.
pub proof fn lemma_closed_is_final(
    session: SessionView,
    frame: Inbound,
    command: ControlFrameView,
    sample: Option<ServerMetricsView>,
    stamp: Option<Seq<char>>,
    now: u64,
)
    requires
        session.phase == SessionPhase::Closed,
    ensures
        after_frame(session, frame, now) == (session, Seq::<SessionActionView>::empty()),
        after_command(session, command) == (session, Seq::<SessionActionView>::empty()),
        after_heartbeat(session, now) == (session, Seq::<SessionActionView>::empty()),
        pushed(session, sample, stamp) is None,
{
}

/// Subscribing to a second server ends the stream of the first: the push
/// task of the first is cancelled before that of the second is launched, and
/// every frame pushed from then on speaks of the second server.
pub proof fn lemma_resubscribe_switches_stream(
    session: SessionView,
    first: Seq<char>,
    second: Seq<char>,
    sample: Option<ServerMetricsView>,
    stamp: Option<Seq<char>>,
)
    requires
        session.phase != SessionPhase::Closed,
    ensures
        ({
            let one = after_command(session, ControlFrameView::Subscribe { server_id: first }).0;
            let two = after_command(one, ControlFrameView::Subscribe { server_id: second });
            &&& one.phase == SessionPhase::Subscribed { server_id: first }
            &&& two.0.phase == SessionPhase::Subscribed { server_id: second }
            &&& two.1 == seq![
                SessionActionView::CancelPush { server_id: first },
                SessionActionView::StartPush { server_id: second },
            ]
            &&& match pushed(two.0, sample, stamp) {
                Some(frame) => frame.server_id() == second,
                None => true,
            }
        }),
{
    let one = after_command(session, ControlFrameView::Subscribe { server_id: first }).0;
    let two = after_command(one, ControlFrameView::Subscribe { server_id: second });
    assert(two.1 =~= seq![
        SessionActionView::CancelPush { server_id: first },
        SessionActionView::StartPush { server_id: second },
    ]);
}

/// Unsubscribing ends the stream: the push task is cancelled and nothing is
/// pushed until the client subscribes again.
pub proof fn lemma_unsubscribe_ends_stream(
    session: SessionView,
    server_id: Seq<char>,
    sample: Option<ServerMetricsView>,
    stamp: Option<Seq<char>>,
)
    requires
        session.phase == (SessionPhase::Subscribed { server_id }),
    ensures
        after_command(session, ControlFrameView::Unsubscribe).0.phase == SessionPhase::Connected,
        after_command(session, ControlFrameView::Unsubscribe).1 == seq![
            SessionActionView::CancelPush { server_id },
        ],
        pushed(after_command(session, ControlFrameView::Unsubscribe).0, sample, stamp) is None,
{
}

} // verus!
