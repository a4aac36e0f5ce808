use vstd::prelude::*;
use vstd::string::StringExecFns;
use crate::auth::types::AuthenticatedUser;
use crate::clock::{now_millis, rfc3339, rfc3339_text};
use crate::text::text_of;
use crate::db::models::{Server, ServerCategory, ServerType};
use crate::ids::fresh_id;
use crate::models::logs::LogEntry;
use crate::models::metrics::{ProcessMetrics, ServerMetrics, ServerMetricsView};
use crate::monitoring::sample_view;
use crate::text::{decimal, joined, lowercase, owned, push_decimal, to_lowercase};

verus! {

#[derive(Debug)]
pub struct CreateServerRequest {
    pub name: String,
    pub host: String,
    pub port: i32,
    pub username: String,
    pub password: String,
    pub server_type: ServerType,
    pub category: ServerCategory,
}

#[derive(Debug)]
pub struct TestConnectionRequest {
    pub host: String,
    pub port: i32,
    pub username: String,
    pub password: String,
}

#[derive(Debug)]
pub struct UpdateServerStatusRequest {
    pub is_online: bool,
}

/// The state of a server as a probe sees it. Usage figures are in
/// hundredths of a percent, `uptime` in seconds.
#[derive(Debug)]
pub struct ServerStatus {
    pub cpu_usage: u32,
    pub memory_usage: u32,
    pub disk_usage: u32,
    pub uptime: i64,
    pub processes: Vec<ProcessInfo>,
    pub is_online: bool,
}

/// One process in a status report. `cpu_usage` is in hundredths of a
/// percent, `memory_usage` in bytes.
#[derive(Debug)]
pub struct ProcessInfo {
    pub pid: u32,
    pub name: String,
    pub cpu_usage: u32,
    pub memory_usage: u64,
}

/// One point of the usage history of a server.
#[derive(Debug)]
pub struct ResourceHistory {
    pub timestamp: i64,
    pub cpu: u32,
    pub memory: u32,
    pub disk: u32,
    pub network: String,
}

/// The current usage of a server with its recent history.
#[derive(Debug)]
pub struct ResourceUsage {
    pub cpu: u32,
    pub memory: u32,
    pub disk: u32,
    pub network: String,
    pub history: Vec<ResourceHistory>,
    pub last_updated: Option<String>,
}

/// What the status endpoint reports about a server.
#[derive(Debug)]
pub struct ServerStatusResponse {
    pub id: String,
    pub name: String,
    pub status: String,
    pub resources: ResourceUsage,
    pub uptime: String,
    pub processes: Vec<ProcessInfo>,
    pub recent_logs: Vec<LogEntry>,
    pub hostname: String,
    pub port: i32,
    pub username: String,
    pub server_type: String,
    pub category: String,
}

/// The window of a history query, in milliseconds since the Unix epoch.
#[derive(Debug, Clone, Copy)]
pub struct MetricsQueryParams {
    pub from: i64,
    pub to: i64,
}

/// Why an operation on a server failed.
#[derive(Debug, PartialEq, Eq)]
pub enum ServerError {
    ConnectionFailed(String),
    ValidationFailed(String),
    InternalError(String),
}

/// What the client is told about a failed operation on a server.
#[derive(Debug)]
pub struct ServerErrorResponse {
    pub status: u16,
    pub success: bool,
    pub message: String,
}

impl ServerError {
    pub open spec fn detail(self) -> Seq<char> {
        match self {
            ServerError::ConnectionFailed(m) => m@,
            ServerError::ValidationFailed(m) => m@,
            ServerError::InternalError(m) => m@,
        }
    }

    pub open spec fn prefix(self) -> Seq<char> {
        match self {
            ServerError::ConnectionFailed(_) => "Connection failed: "@,
            ServerError::ValidationFailed(_) => "Validation failed: "@,
            ServerError::InternalError(_) => "Internal error: "@,
        }
    }

    /// The text of the error: what kind it is, then its detail.
    pub fn to_string(&self) -> (r: String)
        ensures
            r@ == self.prefix() + self.detail(),
    {
        match self {
            ServerError::ConnectionFailed(m) => joined("Connection failed: ", m.as_str()),
            ServerError::ValidationFailed(m) => joined("Validation failed: ", m.as_str()),
            ServerError::InternalError(m) => joined("Internal error: ", m.as_str()),
        }
    }

    /// The answer to the client: 500 for an internal error, 400 otherwise,
    /// with the detail as the message.
    pub fn error_response(&self) -> (r: ServerErrorResponse)
        ensures
            r.status == (if self is InternalError {
                500u16
            } else {
                400u16
            }),
            !r.success,
            r.message@ == self.detail(),
    {
        match self {
            ServerError::ConnectionFailed(m) => ServerErrorResponse {
                status: 400,
                success: false,
                message: m.clone(),
            },
            ServerError::ValidationFailed(m) => ServerErrorResponse {
                status: 400,
                success: false,
                message: m.clone(),
            },
            ServerError::InternalError(m) => ServerErrorResponse {
                status: 500,
                success: false,
                message: m.clone(),
            },
        }
    }
}

/// The step of a connection test that failed.
#[derive(Debug, Clone, Copy, PartialEq, Eq, Structural)]
pub enum ConnectionStep {
    /// The name resolved to no address.
    NoAddress,
    /// The lookup of the name failed or timed out.
    Lookup,
    /// The server refused the TCP connection.
    Connect,
    /// The TCP connection timed out.
    ConnectTimeout,
    /// No SSH session could be set up.
    Session,
    /// The SSH handshake failed.
    Handshake,
    /// The server refused the user name or the password.
    Authentication,
    /// The task that runs the SSH part died.
    Join,
}

/// The message of a failed step of a connection test; `detail` is what the
/// step itself reported.
pub open spec fn failure_message(step: ConnectionStep, detail: Seq<char>) -> Seq<char> {
    match step {
        ConnectionStep::NoAddress => "Could not resolve hostname"@,
        ConnectionStep::Lookup => "DNS lookup failed - please check the hostname"@,
        ConnectionStep::Connect => "Cannot connect to server: "@ + detail
            + ". Please check if the port is open and server is reachable."@,
        ConnectionStep::ConnectTimeout => "Connection timed out - server is not responding"@,
        ConnectionStep::Session => "SSH session creation failed: "@ + detail,
        ConnectionStep::Handshake => "SSH handshake failed: "@ + detail
            + ". Please check if SSH service is running."@,
        ConnectionStep::Authentication => "Authentication failed: "@ + detail
            + ". Please check username and password."@,
        ConnectionStep::Join => "Task join error: "@ + detail,
    }
}

/// The error of a failed step of a connection test: an internal error where
/// the fault is on this side, a failed connection otherwise.
pub fn connection_failure(step: ConnectionStep, detail: &str) -> (r: ServerError)
    ensures
        r.detail() == failure_message(step, detail@),
        (step == ConnectionStep::Session || step == ConnectionStep::Join) ==> r is InternalError,
        !(step == ConnectionStep::Session || step == ConnectionStep::Join) ==> r is ConnectionFailed,
{
    match step {
        ConnectionStep::NoAddress => ServerError::ConnectionFailed(
            owned("Could not resolve hostname"),
        ),
        ConnectionStep::Lookup => ServerError::ConnectionFailed(
            owned("DNS lookup failed - please check the hostname"),
        ),
        ConnectionStep::Connect => {
            let mut message = joined("Cannot connect to server: ", detail);
            message.append(". Please check if the port is open and server is reachable.");
            ServerError::ConnectionFailed(message)
        },
        ConnectionStep::ConnectTimeout => ServerError::ConnectionFailed(
            owned("Connection timed out - server is not responding"),
        ),
        ConnectionStep::Session => ServerError::InternalError(
            joined("SSH session creation failed: ", detail),
        ),
        ConnectionStep::Handshake => {
            let mut message = joined("SSH handshake failed: ", detail);
            message.append(". Please check if SSH service is running.");
            ServerError::ConnectionFailed(message)
        },
        ConnectionStep::Authentication => {
            let mut message = joined("Authentication failed: ", detail);
            message.append(". Please check username and password.");
            ServerError::ConnectionFailed(message)
        },
        ConnectionStep::Join => ServerError::InternalError(joined("Task join error: ", detail)),
    }
}

impl TestConnectionRequest {
    /// Checks the request before anything is tried: host and user name must
    /// be given, and the port must be one, from 1 to 65535.
    pub fn validate(&self) -> (r: Result<(), ServerError>)
        ensures
            (self.host@.len() == 0 || self.username@.len() == 0) ==> r is Err && r->Err_0
                is ValidationFailed && r->Err_0.detail() == "Host and username cannot be empty"@,
            self.host@.len() > 0 && self.username@.len() > 0 && (self.port <= 0 || self.port
                > 65535) ==> r is Err && r->Err_0 is ValidationFailed && r->Err_0.detail()
                == "Invalid port number"@,
            self.host@.len() > 0 && self.username@.len() > 0 && 0 < self.port <= 65535 ==> r is Ok,
    {
        if self.host.as_str().is_empty() || self.username.as_str().is_empty() {
            return Err(ServerError::ValidationFailed(owned("Host and username cannot be empty")));
        }
        if self.port <= 0 || self.port > 65535 {
            return Err(ServerError::ValidationFailed(owned("Invalid port number")));
        }
        Ok(())
    }
}

impl CreateServerRequest {
    /// Whether the request names the server and its host.
    pub fn is_complete(&self) -> (r: bool)
        ensures
            r == (self.name@.len() > 0 && self.host@.len() > 0),
    {
        !self.name.as_str().is_empty() && !self.host.as_str().is_empty()
    }

    /// The host name under which the server is stored and looked up: in
    /// lowercase.
    pub fn hostname(&self) -> (r: String)
        ensures
            r@ == lowercase(self.host@),
    {
        to_lowercase(self.host.as_str())
    }

    /// The server that the request of `user` creates, with the password as
    /// it was encrypted: a fresh id, offline, created now.
    pub fn into_server(&self, encrypted_password: String, user: &AuthenticatedUser) -> (r: Server)
        ensures
            r.name@ == self.name@,
            r.hostname@ == lowercase(self.host@),
            r.port == self.port,
            r.username@ == self.username@,
            r.encrypted_password == encrypted_password,
            r.server_type == self.server_type,
            r.category == ServerCategory::Physical,
            text_of(r.created_by) == Some(user.id@),
            !r.is_online,
            r.ip_address is None,
            r.description is None,
            r.last_seen_at is None,
            text_of(r.location) == Some("Unknown"@),
            text_of(r.metadata) == Some("{}"@),
            r.updated_at == r.created_at,
    {
        let mut server = Server::default();
        let now = now_millis();
        server.id = fresh_id();
        server.name = self.name.clone();
        server.hostname = self.hostname();
        server.port = self.port;
        server.username = self.username.clone();
        server.encrypted_password = encrypted_password;
        server.server_type = self.server_type;
        server.created_by = Some(user.id.clone());
        server.created_at = now;
        server.updated_at = now;
        server
    }
}

/// A byte rate as a text: the number, then ` B/s`.
pub open spec fn rate_text(bytes: nat) -> Seq<char> {
    decimal(bytes) + " B/s"@
}

/// The network figure of a status report: half of the bytes received and
/// sent by the sample, rounded down, as a rate; zero without a sample.
pub open spec fn network_text(sample: Option<ServerMetricsView>) -> Seq<char> {
    match sample {
        Some(s) => rate_text(((s.network_rx + s.network_tx) / 2) as nat),
        None => rate_text(0),
    }
}

/// Renders a byte rate.
pub fn format_rate(bytes: u64) -> (r: String)
    ensures
        r@ == rate_text(bytes as nat),
{
    let mut out = String::new();
    push_decimal(&mut out, bytes);
    out.append(" B/s");
    assert(out@ =~= rate_text(bytes as nat));
    out
}

/// Whether `listed` reports the processes `of`, one for one.
pub open spec fn reports(listed: Seq<ProcessInfo>, of: Seq<ProcessMetrics>) -> bool {
    &&& listed.len() == of.len()
    &&& forall|i: int|
        0 <= i < listed.len() ==> {
            &&& (#[trigger] listed[i]).pid == of[i].pid
            &&& listed[i].name@ == of[i].name@
            &&& listed[i].cpu_usage == of[i].cpu_usage
            &&& listed[i].memory_usage == of[i].memory_usage
        }
}

/// The processes that a sample holds; none without a sample.
pub open spec fn processes_of(sample: Option<ServerMetrics>) -> Seq<ProcessMetrics> {
    match sample {
        Some(s) => s.processes@,
        None => Seq::empty(),
    }
}

/// The processes of a sample as a status report lists them.
pub fn process_list(sample: &Option<ServerMetrics>) -> (r: Vec<ProcessInfo>)
    ensures
        reports(r@, processes_of(*sample)),
{
    let mut out: Vec<ProcessInfo> = Vec::new();
    match sample {
        Some(s) => {
            let mut i: usize = 0;
            while i < s.processes.len()
                invariant
                    i <= s.processes.len(),
                    out@.len() == i,
                    forall|j: int|
                        0 <= j < i ==> {
                            &&& (#[trigger] out@[j]).pid == s.processes@[j].pid
                            &&& out@[j].name@ == s.processes@[j].name@
                            &&& out@[j].cpu_usage == s.processes@[j].cpu_usage
                            &&& out@[j].memory_usage == s.processes@[j].memory_usage
                        },
                decreases s.processes.len() - i,
            {
                let p = &s.processes[i];
                out.push(
                    ProcessInfo {
                        pid: p.pid,
                        name: p.name.clone(),
                        cpu_usage: p.cpu_usage,
                        memory_usage: p.memory_usage,
                    },
                );
                i = i + 1;
            }
        },
        None => {},
    }
    out
}

/// Puts the status report of a server together from the stored server, the
/// latest sample of the registry, the history of the last hour and the
/// instant of the report.
///
/// Without a sample the usage figures are zero. The report carries no logs
/// and no uptime yet.
pub fn server_status(
    server: &Server,
    sample: &Option<ServerMetrics>,
    history: Vec<ResourceHistory>,
    now: i64,
) -> (r: ServerStatusResponse)
    ensures
        r.id@ == server.id@,
        r.name@ == server.name@,
        r.status@ == (if server.is_online {
            "online"@
        } else {
            "offline"@
        }),
        r.resources.cpu == (match sample {
            Some(s) => s.cpu_usage,
            None => 0u32,
        }),
        r.resources.memory == (match sample {
            Some(s) => s.memory_usage,
            None => 0u32,
        }),
        r.resources.disk == (match sample {
            Some(s) => s.disk_usage,
            None => 0u32,
        }),
        r.resources.network@ == network_text(sample_view(*sample)),
        r.resources.history == history,
        text_of(r.resources.last_updated) == rfc3339_text(now as int),
        r.uptime@ == "0s"@,
        reports(r.processes@, processes_of(*sample)),
        r.recent_logs@.len() == 0,
        r.hostname@ == server.hostname@,
        r.port == server.port,
        r.username@ == server.username@,
        r.server_type@ == server.server_type.name(),
        r.category@ == server.category.name(),
{
    let (cpu, memory, disk, rate): (u32, u32, u32, u64) = match sample {
        Some(s) => {
            let total: u128 = s.network_rx as u128 + s.network_tx as u128;
            (s.cpu_usage, s.memory_usage, s.disk_usage, (total / 2) as u64)
        },
        None => (0, 0, 0, 0),
    };
    let status = if server.is_online {
        owned("online")
    } else {
        owned("offline")
    };
    ServerStatusResponse {
        id: server.id.clone(),
        name: server.name.clone(),
        status,
        resources: ResourceUsage {
            cpu,
            memory,
            disk,
            network: format_rate(rate),
            history,
            last_updated: rfc3339(now),
        },
        uptime: owned("0s"),
        processes: process_list(sample),
        recent_logs: Vec::new(),
        hostname: server.hostname.clone(),
        port: server.port,
        username: server.username.clone(),
        server_type: server.server_type.to_string(),
        category: server.category.to_string(),
    }
}

/// One point of the history as the store reports it: the usage figures and
/// the bytes received and sent in the minute.
pub fn history_point(timestamp: i64, cpu: u32, memory: u32, disk: u32, network: u64) -> (r:
    ResourceHistory)
    ensures
        r.timestamp == timestamp,
        r.cpu == cpu,
        r.memory == memory,
        r.disk == disk,
        r.network@ == rate_text(network as nat),
{
    ResourceHistory { timestamp, cpu, memory, disk, network: format_rate(network) }
}

} // verus!
