pub mod collector;
pub mod invariants;
pub mod service;
pub mod traits;

use vstd::prelude::*;
use crate::config::AlertThresholds;
use crate::db::models::{Alert, MetricsSnapshot, MetricsSnapshotView};
use crate::models::metrics::{ProcessMetrics, ServerMetrics, ServerMetricsView};
use crate::monitoring::collector::SamplerError;
use crate::monitoring::service::{alert_views, alerts_for, evaluate_alerts, snapshot_of, snapshot_view};
use crate::text::owned;

verus! {

/// The contents of an optional sample.
pub open spec fn sample_view(sample: Option<ServerMetrics>) -> Option<ServerMetricsView> {
    match sample {
        Some(s) => Some(s@),
        None => None,
    }
}

/// The contents of an optional history record.
pub open spec fn record_view(record: Option<MetricsSnapshot>) -> Option<MetricsSnapshotView> {
    match record {
        Some(s) => Some(s@),
        None => None,
    }
}

/// What a collector holds: the latest sample, if a tick has completed, and
/// whether its sampling loop is alive.
pub struct CollectorView {
    pub latest: Option<ServerMetricsView>,
    pub running: bool,
}

/// The cache of the latest sample of one server, with the state of the
/// sampling loop that feeds it. The loop itself belongs to the caller: the
/// collector says when to start and when to cancel it, and takes what each
/// tick brings.
#[derive(Debug)]
pub struct MetricsCollector {
    metrics: Option<ServerMetrics>,
    running: bool,
}

impl View for MetricsCollector {
    type V = CollectorView;

    closed spec fn view(&self) -> CollectorView {
        CollectorView { latest: sample_view(self.metrics), running: self.running }
    }
}

/// The collector after a tick that ended in `sample` (`None`: the sampler
/// failed). A sample replaces the cached one; a failed tick keeps it; a
/// collector whose loop is cancelled takes nothing.
pub open spec fn after_tick(before: CollectorView, sample: Option<ServerMetricsView>) -> CollectorView {
    if before.running && sample is Some {
        CollectorView { latest: sample, running: true }
    } else {
        before
    }
}

/// The sample that a sampling outcome carries.
pub open spec fn outcome_view(outcome: Result<ServerMetrics, SamplerError>) -> Option<
    ServerMetricsView,
> {
    match outcome {
        Ok(s) => Some(s@),
        Err(_) => None,
    }
}

impl MetricsCollector {
    /// A collector that holds no sample and runs no loop.
    pub fn new() -> (r: Self)
        ensures
            r@ == (CollectorView { latest: None, running: false }),
    {
        MetricsCollector { metrics: None, running: false }
    }

    /// Marks the sampling loop as alive. The result says whether the caller
    /// has to launch it: starting a collector that runs launches nothing.
    pub fn start_collection(&mut self) -> (launch: bool)
        ensures
            launch == !old(self)@.running,
            final(self)@ == (CollectorView { running: true, ..old(self)@ }),
    {
        let launch = !self.running;
        self.running = true;
        launch
    }

    /// Takes the outcome of one sampling tick.
    pub fn record(&mut self, outcome: Result<ServerMetrics, SamplerError>)
        ensures
            final(self)@ == after_tick(old(self)@, outcome_view(outcome)),
    {
        if self.running {
            match outcome {
                Ok(sample) => {
                    self.metrics = Some(sample);
                },
                Err(_) => {},
            }
        }
    }

    /// A copy of the latest sample, or nothing before the first tick. The
    /// sample stays readable after the loop is cancelled.
    pub fn get_current_metrics(&self) -> (r: Option<ServerMetrics>)
        ensures
            sample_view(r) == self@.latest,
    {
        match &self.metrics {
            Some(sample) => Some(sample.clone()),
            None => None,
        }
    }

    /// Marks the sampling loop as cancelled and keeps the cached sample. The
    /// result says whether there was a loop for the caller to cancel.
    pub fn stop(&mut self) -> (cancel: bool)
        ensures
            cancel == old(self)@.running,
            final(self)@ == (CollectorView { running: false, ..old(self)@ }),
    {
        let cancel = self.running;
        self.running = false;
        cancel
    }

    pub fn is_running(&self) -> (r: bool)
        ensures
            r == self@.running,
    {
        self.running
    }
}

/// One entry of the registry: a server and its collector.
pub struct EntryView {
    pub server_id: Seq<char>,
    pub collector: CollectorView,
}

#[derive(Debug)]
struct Entry {
    server_id: String,
    collector: MetricsCollector,
}

/// What the caller has to carry out after an operation of the registry.
#[derive(Debug, PartialEq, Eq)]
pub enum MonitorAction {
    /// Launch the sampling loop and the persistence loop of the server.
    StartCollector { server_id: String },
    /// Cancel both loops of the server.
    StopCollector { server_id: String },
    /// Record in the store whether the server is online.
    SetOnline { server_id: String, online: bool },
}

pub enum MonitorActionView {
    StartCollector { server_id: Seq<char> },
    StopCollector { server_id: Seq<char> },
    SetOnline { server_id: Seq<char>, online: bool },
}

impl View for MonitorAction {
    type V = MonitorActionView;

    open spec fn view(&self) -> MonitorActionView {
        match self {
            MonitorAction::StartCollector { server_id } => MonitorActionView::StartCollector {
                server_id: server_id@,
            },
            MonitorAction::StopCollector { server_id } => MonitorActionView::StopCollector {
                server_id: server_id@,
            },
            MonitorAction::SetOnline { server_id, online } => MonitorActionView::SetOnline {
                server_id: server_id@,
                online: *online,
            },
        }
    }
}

/// The contents of a list of actions.
pub open spec fn action_views(actions: Seq<MonitorAction>) -> Seq<MonitorActionView> {
    actions.map_values(|a: MonitorAction| a@)
}

/// No server has two entries, and every collector in the registry runs.
pub open spec fn valid_registry(entries: Seq<EntryView>) -> bool {
    &&& forall|i: int, j: int|
        0 <= i < j < entries.len() ==> entries[i].server_id != entries[j].server_id
    &&& forall|i: int| 0 <= i < entries.len() ==> (#[trigger] entries[i]).collector.running
}

/// Where the entry of `server_id` stands, or `-1` if it has none.
pub open spec fn position(entries: Seq<EntryView>, server_id: Seq<char>) -> int
    decreases entries.len(),
{
    if entries.len() == 0 {
        -1
    } else if entries.last().server_id == server_id {
        entries.len() - 1
    } else {
        position(entries.drop_last(), server_id)
    }
}

/// Whether the server has a collector.
pub open spec fn monitored(entries: Seq<EntryView>, server_id: Seq<char>) -> bool {
    position(entries, server_id) >= 0
}

/// The registry without the entry of `server_id`.
pub open spec fn without(entries: Seq<EntryView>, server_id: Seq<char>) -> Seq<EntryView> {
    if monitored(entries, server_id) {
        entries.remove(position(entries, server_id))
    } else {
        entries
    }
}

/// The entry of a server whose monitoring has just started: a running
/// collector that has not sampled yet.
pub open spec fn fresh_entry(server_id: Seq<char>) -> EntryView {
    EntryView { server_id, collector: CollectorView { latest: None, running: true } }
}

/// The registry after monitoring of `server_id` has started: any earlier
/// entry of the server is replaced by a fresh one.
pub open spec fn started(entries: Seq<EntryView>, server_id: Seq<char>) -> Seq<EntryView> {
    without(entries, server_id).push(fresh_entry(server_id))
}

/// What starting the monitoring of `server_id` asks of the caller: cancel
/// the loops of the collector that is replaced, if there is one, launch the
/// new ones, and mark the server as online.
pub open spec fn start_actions(entries: Seq<EntryView>, server_id: Seq<char>) -> Seq<
    MonitorActionView,
> {
    let launch = seq![
        MonitorActionView::StartCollector { server_id },
        MonitorActionView::SetOnline { server_id, online: true },
    ];
    if monitored(entries, server_id) {
        seq![MonitorActionView::StopCollector { server_id }] + launch
    } else {
        launch
    }
}

/// What stopping the monitoring of `server_id` asks of the caller.
pub open spec fn stop_actions(entries: Seq<EntryView>, server_id: Seq<char>) -> Seq<
    MonitorActionView,
> {
    if monitored(entries, server_id) {
        seq![
            MonitorActionView::StopCollector { server_id },
            MonitorActionView::SetOnline { server_id, online: false },
        ]
    } else {
        Seq::empty()
    }
}

/// The cached sample of `server_id`, if it is monitored and has one.
pub open spec fn latest_of(entries: Seq<EntryView>, server_id: Seq<char>) -> Option<
    ServerMetricsView,
> {
    if monitored(entries, server_id) {
        entries[position(entries, server_id)].collector.latest
    } else {
        None
    }
}

/// The registry after a sampling tick of `server_id` that ended in `sample`.
/// A tick of a server that is not monitored changes nothing.
pub open spec fn ticked(
    entries: Seq<EntryView>,
    server_id: Seq<char>,
    sample: Option<ServerMetricsView>,
) -> Seq<EntryView> {
    if monitored(entries, server_id) {
        let at = position(entries, server_id);
        entries.update(
            at,
            EntryView { server_id: entries[at].server_id, collector: after_tick(entries[at].collector, sample) },
        )
    } else {
        entries
    }
}

/// The history record that a persistence tick of `server_id` at `now`
/// writes: the latest sample of a monitored server, and nothing for a server
/// that is not monitored or has not sampled yet.
pub open spec fn persisted(entries: Seq<EntryView>, server_id: Seq<char>, now: i64) -> Option<
    MetricsSnapshotView,
> {
    match latest_of(entries, server_id) {
        Some(sample) => Some(snapshot_view(server_id, sample, now)),
        None => None,
    }
}

/// The entry of a server is where `position` says, and nowhere else.
pub proof fn lemma_position(entries: Seq<EntryView>, server_id: Seq<char>)
    requires
        valid_registry(entries),
    ensures
        -1 <= position(entries, server_id) < entries.len(),
        monitored(entries, server_id) ==> entries[position(entries, server_id)].server_id
            == server_id,
        forall|i: int|
            0 <= i < entries.len() && i != position(entries, server_id) ==> (#[trigger] entries[i]).server_id
                != server_id,
    decreases entries.len(),
{
    if entries.len() > 0 {
        let rest = entries.drop_last();
        lemma_position(rest, server_id);
        assert forall|i: int|
            0 <= i < entries.len() && i != position(entries, server_id) implies (#[trigger] entries[i]).server_id
            != server_id by {
            if i < rest.len() {
                assert(entries[i] == rest[i]);
            }
        }
    }
}

/// What one operation's actions do to the number of live loops of
/// `server_id`: a start adds one, a stop takes one away.
pub open spec fn loops_after(live: int, actions: Seq<MonitorActionView>, server_id: Seq<char>) -> int
    decreases actions.len(),
{
    if actions.len() == 0 {
        live
    } else {
        let before = loops_after(live, actions.drop_last(), server_id);
        match actions.last() {
            MonitorActionView::StartCollector { server_id: id } => if id == server_id {
                before + 1
            } else {
                before
            },
            MonitorActionView::StopCollector { server_id: id } => if id == server_id {
                before - 1
            } else {
                before
            },
            MonitorActionView::SetOnline { .. } => before,
        }
    }
}

/// The number of loops that a registry owes a server: one if it is
/// monitored, none if not.
pub open spec fn loops_owed(entries: Seq<EntryView>, server_id: Seq<char>) -> int {
    if monitored(entries, server_id) {
        1
    } else {
        0
    }
}

/// What one persistence tick hands to the store: at most one history record
/// and the alerts that it gives rise to.
#[derive(Debug)]
pub struct PersistenceStep {
    pub snapshot: Option<MetricsSnapshot>,
    pub alerts: Vec<Alert>,
}

/// The registry of collectors: which servers are monitored, and the latest
/// sample of each.
///
/// The registry decides and remembers; it runs nothing. Each operation
/// returns the actions that the caller has to carry out, and the caller
/// reports each sampling tick back with `record_sample`.
#[derive(Debug)]
pub struct MonitoringService {
    collectors: Vec<Entry>,
}

impl View for MonitoringService {
    type V = Seq<EntryView>;

    closed spec fn view(&self) -> Seq<EntryView> {
        entry_views(self.collectors@)
    }
}

spec fn entry_views(list: Seq<Entry>) -> Seq<EntryView> {
    list.map_values(|e: Entry| EntryView { server_id: e.server_id@, collector: e.collector@ })
}

fn find_entry(list: &Vec<Entry>, server_id: &str) -> (r: Option<usize>)
    requires
        valid_registry(entry_views(list@)),
    ensures
        match r {
            Some(i) => i == position(entry_views(list@), server_id@) && i < list@.len(),
            None => !monitored(entry_views(list@), server_id@),
        },
{
    let wanted = owned(server_id);
    let mut i: usize = 0;
    while i < list.len()
        invariant
            i <= list.len(),
            wanted@ == server_id@,
            valid_registry(entry_views(list@)),
            forall|j: int| 0 <= j < i ==> (#[trigger] entry_views(list@)[j]).server_id != server_id@,
        decreases list.len() - i,
    {
        assert(entry_views(list@)[i as int].server_id == list[i as int].server_id@);
        if list[i].server_id == wanted {
            proof {
                lemma_position(entry_views(list@), server_id@);
            }
            return Some(i);
        }
        i = i + 1;
    }
    proof {
        lemma_position(entry_views(list@), server_id@);
    }
    None
}

impl MonitoringService {
    #[verifier::type_invariant]
    spec fn well_formed(self) -> bool {
        valid_registry(self@)
    }

    /// A registry that monitors nothing.
    pub fn new() -> (r: Self)
        ensures
            r@ == Seq::<EntryView>::empty(),
            valid_registry(r@),
    {
        let r = MonitoringService { collectors: Vec::new() };
        assert(r@ =~= Seq::<EntryView>::empty());
        r
    }

    fn find(&self, server_id: &str) -> (r: Option<usize>)
        ensures
            valid_registry(self@),
            match r {
                Some(i) => i == position(self@, server_id@) && i < self.collectors@.len(),
                None => !monitored(self@, server_id@),
            },
    {
        proof {
            use_type_invariant(self);
        }
        find_entry(&self.collectors, server_id)
    }

    fn take_entries(&mut self) -> (list: Vec<Entry>)
        ensures
            entry_views(list@) == old(self)@,
            valid_registry(old(self)@),
    {
        proof {
            use_type_invariant(&*self);
        }
        let mut taken = MonitoringService { collectors: Vec::new() };
        assert(taken@ =~= Seq::<EntryView>::empty());
        std::mem::swap(self, &mut taken);
        taken.collectors
    }

    fn put_entries(&mut self, list: Vec<Entry>)
        requires
            valid_registry(entry_views(list@)),
        ensures
            final(self)@ == entry_views(list@),
    {
        *self = MonitoringService { collectors: list };
    }

    /// Whether the server has a collector.
    pub fn is_monitoring(&self, server_id: &str) -> (r: bool)
        ensures
            r == monitored(self@, server_id@),
    {
        self.find(server_id).is_some()
    }

    /// The monitored servers, in the order in which their monitoring started.
    pub fn monitored_servers(&self) -> (r: Vec<String>)
        ensures
            r@.len() == self@.len(),
            forall|i: int| 0 <= i < r@.len() ==> (#[trigger] r@[i])@ == self@[i].server_id,
    {
        let mut ids: Vec<String> = Vec::new();
        let mut i: usize = 0;
        while i < self.collectors.len()
            invariant
                i <= self.collectors.len(),
                self@ == entry_views(self.collectors@),
                ids@.len() == i,
                forall|j: int| 0 <= j < i ==> (#[trigger] ids@[j])@ == self@[j].server_id,
            decreases self.collectors.len() - i,
        {
            assert(self@[i as int].server_id == self.collectors[i as int].server_id@);
            ids.push(self.collectors[i].server_id.clone());
            i = i + 1;
        }
        ids
    }

    /// Starts monitoring `server_id`, provided the store knows the server
    /// (`registered`). A collector that the server already has is replaced:
    /// its loops are cancelled before the new ones are launched. For a server
    /// that the store does not know nothing happens.
    pub fn start_monitoring(&mut self, server_id: &str, registered: bool) -> (actions: Vec<
        MonitorAction,
    >)
        ensures
            registered ==> final(self)@ == started(old(self)@, server_id@) && action_views(
                actions@,
            ) == start_actions(old(self)@, server_id@),
            !registered ==> final(self)@ == old(self)@ && actions@.len() == 0,
            valid_registry(old(self)@),
            valid_registry(final(self)@),
    {
        proof {
            use_type_invariant(&*self);
        }
        let mut actions: Vec<MonitorAction> = Vec::new();
        if !registered {
            return actions;
        }
        let ghost before = self@;
        let mut list = self.take_entries();
        proof {
            lemma_position(before, server_id@);
        }
        match find_entry(&list, server_id) {
            Some(at) => {
                list.remove(at);
                actions.push(MonitorAction::StopCollector { server_id: owned(server_id) });
                assert(entry_views(list@) =~= without(before, server_id@));
            },
            None => {},
        }
        let mut collector = MetricsCollector::new();
        collector.start_collection();
        list.push(Entry { server_id: owned(server_id), collector });
        actions.push(MonitorAction::StartCollector { server_id: owned(server_id) });
        actions.push(MonitorAction::SetOnline { server_id: owned(server_id), online: true });
        proof {
            assert(entry_views(list@) =~= started(before, server_id@));
            assert(action_views(actions@) =~= start_actions(before, server_id@));
            lemma_started_valid(before, server_id@);
        }
        self.put_entries(list);
        actions
    }

    /// Stops monitoring `server_id`: its entry leaves the registry together
    /// with the order to cancel its loops. Stopping a server that is not
    /// monitored does nothing.
    pub fn stop_monitoring(&mut self, server_id: &str) -> (actions: Vec<MonitorAction>)
        ensures
            final(self)@ == without(old(self)@, server_id@),
            action_views(actions@) == stop_actions(old(self)@, server_id@),
            valid_registry(old(self)@),
            valid_registry(final(self)@),
    {
        let mut actions: Vec<MonitorAction> = Vec::new();
        let ghost before = self@;
        let mut list = self.take_entries();
        proof {
            lemma_position(before, server_id@);
            lemma_without_valid(before, server_id@);
        }
        match find_entry(&list, server_id) {
            Some(at) => {
                list.remove(at);
                actions.push(MonitorAction::StopCollector { server_id: owned(server_id) });
                actions.push(MonitorAction::SetOnline { server_id: owned(server_id), online: false });
                assert(entry_views(list@) =~= without(before, server_id@));
            },
            None => {},
        }
        assert(action_views(actions@) =~= stop_actions(before, server_id@));
        self.put_entries(list);
        actions
    }

    /// Reads the latest sample of `server_id`.
    ///
    /// For a server without a collector the read returns nothing and starts
    /// the monitoring as `start_monitoring` does, so that a later read finds a
    /// sample. `registered` is looked at in that case only.
    pub fn get_server_metrics(&mut self, server_id: &str, registered: bool) -> (r: (
        Option<ServerMetrics>,
        Vec<MonitorAction>,
    ))
        ensures
            sample_view(r.0) == latest_of(old(self)@, server_id@),
            monitored(old(self)@, server_id@) ==> final(self)@ == old(self)@ && r.1@.len() == 0,
            !monitored(old(self)@, server_id@) && registered ==> final(self)@ == started(
                old(self)@,
                server_id@,
            ) && action_views(r.1@) == start_actions(old(self)@, server_id@),
            !monitored(old(self)@, server_id@) && !registered ==> final(self)@ == old(self)@
                && r.1@.len() == 0,
    {
        match self.find(server_id) {
            Some(at) => {
                assert(self@[at as int].collector == self.collectors[at as int].collector@);
                let sample = self.collectors[at].collector.get_current_metrics();
                (sample, Vec::new())
            },
            None => {
                let actions = self.start_monitoring(server_id, registered);
                (None, actions)
            },
        }
    }

    /// The processes of the latest sample of `server_id`. Reading them never
    /// starts a collector.
    pub fn get_server_processes(&self, server_id: &str) -> (r: Option<Vec<ProcessMetrics>>)
        ensures
            match latest_of(self@, server_id@) {
                Some(sample) => r is Some && r->Some_0@ == sample.processes,
                None => r is None,
            },
    {
        match self.find(server_id) {
            Some(at) => {
                assert(self@[at as int].collector == self.collectors[at as int].collector@);
                match self.collectors[at].collector.get_current_metrics() {
                    Some(sample) => Some(sample.processes),
                    None => None,
                }
            },
            None => None,
        }
    }

    /// The latest sample of the server that has been monitored longest, or
    /// nothing where no server is monitored.
    pub fn get_current_metrics(&self) -> (r: Option<ServerMetrics>)
        ensures
            sample_view(r) == (if self@.len() == 0 {
                None
            } else {
                self@[0].collector.latest
            }),
    {
        if self.collectors.len() == 0 {
            assert(self@.len() == 0);
            None
        } else {
            assert(self@[0].collector == self.collectors[0].collector@);
            self.collectors[0].collector.get_current_metrics()
        }
    }

    /// Takes the outcome of one sampling tick of `server_id`: a sample
    /// replaces the cached one, a failure keeps it. A tick that arrives for a
    /// server that is no longer monitored is dropped.
    pub fn record_sample(&mut self, server_id: &str, outcome: Result<ServerMetrics, SamplerError>)
        ensures
            final(self)@ == ticked(old(self)@, server_id@, outcome_view(outcome)),
            valid_registry(old(self)@),
            valid_registry(final(self)@),
    {
        let ghost before = self@;
        let mut list = self.take_entries();
        proof {
            lemma_position(before, server_id@);
            lemma_ticked_valid(before, server_id@, outcome_view(outcome));
        }
        match find_entry(&list, server_id) {
            Some(at) => {
                let mut entry = list.remove(at);
                assert(before[at as int].collector == entry.collector@);
                assert(before[at as int].server_id == entry.server_id@);
                entry.collector.record(outcome);
                list.insert(at, entry);
                assert(entry_views(list@) =~= ticked(before, server_id@, outcome_view(outcome)));
            },
            None => {},
        }
        self.put_entries(list);
    }

    /// One persistence tick of `server_id` at `now`: the history record of its
    /// latest sample and the alerts that the record gives rise to under
    /// `thresholds`. A server that is not monitored, or has no sample yet,
    /// yields neither.
    pub fn persist(&self, server_id: &str, now: i64, thresholds: &AlertThresholds) -> (r:
        PersistenceStep)
        ensures
            record_view(r.snapshot) == persisted(self@, server_id@, now),
            alert_views(r.alerts@) == (match persisted(self@, server_id@, now) {
                Some(record) => alerts_for(record, *thresholds),
                None => Seq::empty(),
            }),
    {
        let sample = match self.find(server_id) {
            Some(at) => {
                assert(self@[at as int].collector == self.collectors[at as int].collector@);
                self.collectors[at].collector.get_current_metrics()
            },
            None => None,
        };
        match sample {
            Some(sample) => {
                let snapshot = snapshot_of(server_id, &sample, now);
                let alerts = evaluate_alerts(&snapshot, thresholds);
                PersistenceStep { snapshot: Some(snapshot), alerts }
            },
            None => {
                let alerts: Vec<Alert> = Vec::new();
                assert(alert_views(alerts@) =~= Seq::empty());
                PersistenceStep { snapshot: None, alerts }
            },
        }
    }
}

/// Removing a server's entry leaves a valid registry in which the server has
/// no entry and every other server stands as before.
pub proof fn lemma_without_valid(entries: Seq<EntryView>, server_id: Seq<char>)
    requires
        valid_registry(entries),
    ensures
        valid_registry(without(entries, server_id)),
        !monitored(without(entries, server_id), server_id),
        forall|other: Seq<char>|
            other != server_id ==> monitored(without(entries, server_id), other) == monitored(
                entries,
                other,
            ) && latest_of(without(entries, server_id), other) == latest_of(entries, other),
{
    lemma_position(entries, server_id);
    let rest = without(entries, server_id);
    lemma_position(rest, server_id);
    assert forall|other: Seq<char>| other != server_id implies monitored(rest, other) == monitored(
        entries,
        other,
    ) && latest_of(rest, other) == latest_of(entries, other) by {
        lemma_position(entries, other);
        lemma_position(rest, other);
        if monitored(entries, server_id) {
            let gone = position(entries, server_id);
            if monitored(entries, other) {
                let at = position(entries, other);
                if at < gone {
                    assert(rest[at] == entries[at]);
                } else {
                    assert(rest[at - 1] == entries[at]);
                }
            }
            if monitored(rest, other) {
                let at = position(rest, other);
                if at < gone {
                    assert(rest[at] == entries[at]);
                } else {
                    assert(rest[at] == entries[at + 1]);
                }
            }
        }
    }
    if monitored(rest, server_id) {
        let at = position(rest, server_id);
        let gone = position(entries, server_id);
        if monitored(entries, server_id) {
            if at < gone {
                assert(rest[at] == entries[at]);
            } else {
                assert(rest[at] == entries[at + 1]);
            }
        }
    }
}

/// Starting a server's monitoring leaves a valid registry in which the server
/// has exactly the last entry, a running collector without a sample, and
/// every other server stands as before.
pub proof fn lemma_started_valid(entries: Seq<EntryView>, server_id: Seq<char>)
    requires
        valid_registry(entries),
    ensures
        valid_registry(started(entries, server_id)),
        position(started(entries, server_id), server_id) == started(entries, server_id).len() - 1,
        monitored(started(entries, server_id), server_id),
        latest_of(started(entries, server_id), server_id) is None,
        forall|other: Seq<char>|
            other != server_id ==> monitored(started(entries, server_id), other) == monitored(
                entries,
                other,
            ) && latest_of(started(entries, server_id), other) == latest_of(entries, other),
{
    lemma_without_valid(entries, server_id);
    let rest = without(entries, server_id);
    let next = started(entries, server_id);
    lemma_position(rest, server_id);
    assert forall|i: int, j: int| 0 <= i < j < next.len() implies next[i].server_id
        != next[j].server_id by {
        if j < rest.len() {
            assert(next[i] == rest[i] && next[j] == rest[j]);
        } else {
            assert(next[i] == rest[i]);
        }
    }
    assert(next.drop_last() =~= rest);
    assert forall|other: Seq<char>| other != server_id implies monitored(next, other)
        == monitored(entries, other) && latest_of(next, other) == latest_of(entries, other) by {
        lemma_position(rest, other);
        if monitored(rest, other) {
            assert(next[position(rest, other)] == rest[position(rest, other)]);
        }
    }
}

/// A sampling tick leaves a valid registry and touches no server but its own.
pub proof fn lemma_ticked_valid(
    entries: Seq<EntryView>,
    server_id: Seq<char>,
    sample: Option<ServerMetricsView>,
)
    requires
        valid_registry(entries),
    ensures
        valid_registry(ticked(entries, server_id, sample)),
        forall|other: Seq<char>|
            position(ticked(entries, server_id, sample), other) == position(entries, other),
        forall|other: Seq<char>|
            other != server_id ==> latest_of(ticked(entries, server_id, sample), other)
                == latest_of(entries, other),
{
    lemma_position(entries, server_id);
    let next = ticked(entries, server_id, sample);
    assert(valid_registry(next));
    assert forall|other: Seq<char>| position(next, other) == position(entries, other) by {
        lemma_same_ids_same_position(entries, next, other);
    }
    assert forall|other: Seq<char>| other != server_id implies latest_of(next, other) == latest_of(
        entries,
        other,
    ) by {
        lemma_same_ids_same_position(entries, next, other);
        lemma_position(entries, other);
    }
}

/// Where a server stands depends on the ids of the entries alone.
pub proof fn lemma_same_ids_same_position(a: Seq<EntryView>, b: Seq<EntryView>, server_id: Seq<char>)
    requires
        a.len() == b.len(),
        forall|i: int| 0 <= i < a.len() ==> (#[trigger] a[i]).server_id == b[i].server_id,
    ensures
        position(a, server_id) == position(b, server_id),
    decreases a.len(),
{
    if a.len() > 0 {
        assert(a.last().server_id == b.last().server_id);
        assert forall|i: int| 0 <= i < a.drop_last().len() implies (#[trigger] a.drop_last()[i]).server_id
            == b.drop_last()[i].server_id by {
            assert(a.drop_last()[i] == a[i]);
        }
        lemma_same_ids_same_position(a.drop_last(), b.drop_last(), server_id);
    }
}

} // verus!
