use vstd::prelude::*;
use crate::text::owned;

verus! {

/// What the health endpoint reports. `uptime` is in seconds.
#[derive(Debug)]
pub struct HealthStatus {
    pub status: String,
    pub database: bool,
    pub version: String,
    pub uptime: u64,
}

/// The report of a server that answers: always `ok`, with the state of the
/// database beside it.
pub fn health_check(database: bool, version: &str, uptime: u64) -> (r: HealthStatus)
    ensures
        r.status@ == "ok"@,
        r.database == database,
        r.version@ == version@,
        r.uptime == uptime,
{
    HealthStatus { status: owned("ok"), database, version: owned(version), uptime }
}

} // verus!
