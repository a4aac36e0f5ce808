use vstd::prelude::*;
use crate::clock::now_millis;

verus! {

/// Usage figures are fixed-point numbers: one unit is a hundredth of a percent,
/// so `10_000` is 100 %.
pub const FULL_SCALE: u32 = 10_000;

/// A process or a share of memory counts as high above 80 %.
pub const HIGH_USAGE: u32 = 8_000;

/// One process as seen by the sampler.
///
/// `cpu_usage` is in hundredths of a percent of one core, so a process that
/// keeps several cores busy reads above `FULL_SCALE`. `memory_usage` is in bytes.
#[derive(Debug, PartialEq, Eq)]
pub struct ProcessMetrics {
    pub pid: u32,
    pub name: String,
    pub cpu_usage: u32,
    pub memory_usage: u64,
}

impl Clone for ProcessMetrics {
    fn clone(&self) -> (r: Self)
        ensures
            r == *self,
    {
        ProcessMetrics {
            pid: self.pid,
            name: self.name.clone(),
            cpu_usage: self.cpu_usage,
            memory_usage: self.memory_usage,
        }
    }
}

impl ProcessMetrics {
    pub fn new(pid: u32, name: String, cpu_usage: u32, memory_usage: u64) -> (r: Self)
        ensures
            r.pid == pid,
            r.name == name,
            r.cpu_usage == cpu_usage,
            r.memory_usage == memory_usage,
    {
        ProcessMetrics { pid, name, cpu_usage, memory_usage }
    }

    /// Whether the process uses more than 80 % of a core.
    pub fn is_high_cpu(&self) -> (r: bool)
        ensures
            r == (self.cpu_usage > HIGH_USAGE),
    {
        self.cpu_usage > HIGH_USAGE
    }

    /// Whether the process holds more than 80 % of `total_memory` bytes.
    ///
    /// The comparison is exact: `memory_usage / total_memory > 80 / 100` is
    /// decided by cross-multiplication, so with no memory at all any process
    /// that holds a byte counts as high.
    pub fn is_high_memory(&self, total_memory: u64) -> (r: bool)
        ensures
            r == (self.memory_usage * 100 > 80 * total_memory),
    {
        let held: u128 = self.memory_usage as u128 * 100;
        let limit: u128 = total_memory as u128 * 80;
        held > limit
    }
}

/// What a `ServerMetrics` holds, with the process list as a sequence.
pub struct ServerMetricsView {
    pub cpu_usage: u32,
    pub memory_usage: u32,
    pub disk_usage: u32,
    pub network_rx: u64,
    pub network_tx: u64,
    pub timestamp: i64,
    pub processes: Seq<ProcessMetrics>,
}

/// A point-in-time sample of one server.
///
/// The three usage figures are in hundredths of a percent, the network
/// counters in bytes, `timestamp` in milliseconds since the Unix epoch.
#[derive(Debug, PartialEq, Eq)]
pub struct ServerMetrics {
    pub cpu_usage: u32,
    pub memory_usage: u32,
    pub disk_usage: u32,
    pub network_rx: u64,
    pub network_tx: u64,
    pub timestamp: i64,
    pub processes: Vec<ProcessMetrics>,
}

impl View for ServerMetrics {
    type V = ServerMetricsView;

    open spec fn view(&self) -> ServerMetricsView {
        ServerMetricsView {
            cpu_usage: self.cpu_usage,
            memory_usage: self.memory_usage,
            disk_usage: self.disk_usage,
            network_rx: self.network_rx,
            network_tx: self.network_tx,
            timestamp: self.timestamp,
            processes: self.processes@,
        }
    }
}

/// An element-wise copy of a process list.
pub fn clone_processes(list: &Vec<ProcessMetrics>) -> (r: Vec<ProcessMetrics>)
    ensures
        r@ == list@,
{
    let mut out: Vec<ProcessMetrics> = Vec::new();
    let mut i: usize = 0;
    while i < list.len()
        invariant
            i <= list.len(),
            out@ == list@.take(i as int),
        decreases list.len() - i,
    {
        out.push(list[i].clone());
        assert(list@.take(i + 1) == list@.take(i as int).push(list@[i as int]));
        i = i + 1;
    }
    assert(list@.take(list.len() as int) == list@);
    out
}

impl Clone for ServerMetrics {
    fn clone(&self) -> (r: Self)
        ensures
            r@ == self@,
    {
        ServerMetrics {
            cpu_usage: self.cpu_usage,
            memory_usage: self.memory_usage,
            disk_usage: self.disk_usage,
            network_rx: self.network_rx,
            network_tx: self.network_tx,
            timestamp: self.timestamp,
            processes: clone_processes(&self.processes),
        }
    }
}

impl Default for ServerMetrics {
    /// The empty sample: every figure zero, taken at the epoch, no processes.
    fn default() -> (r: Self)
        ensures
            r.cpu_usage == 0,
            r.memory_usage == 0,
            r.disk_usage == 0,
            r.network_rx == 0,
            r.network_tx == 0,
            r.timestamp == 0,
            r.processes@.len() == 0,
    {
        ServerMetrics {
            cpu_usage: 0,
            memory_usage: 0,
            disk_usage: 0,
            network_rx: 0,
            network_tx: 0,
            timestamp: 0,
            processes: Vec::new(),
        }
    }
}

impl ServerMetrics {
    /// A sample of the given figures, stamped with the current wall-clock time.
    pub fn new(
        cpu_usage: u32,
        memory_usage: u32,
        disk_usage: u32,
        network_rx: u64,
        network_tx: u64,
        processes: Vec<ProcessMetrics>,
    ) -> (r: Self)
        ensures
            r.cpu_usage == cpu_usage,
            r.memory_usage == memory_usage,
            r.disk_usage == disk_usage,
            r.network_rx == network_rx,
            r.network_tx == network_tx,
            r.processes == processes,
    {
        ServerMetrics {
            cpu_usage,
            memory_usage,
            disk_usage,
            network_rx,
            network_tx,
            timestamp: now_millis(),
            processes,
        }
    }

    /// Whether all three usage figures are zero.
    pub fn is_empty(&self) -> (r: bool)
        ensures
            r == (self.cpu_usage == 0 && self.memory_usage == 0 && self.disk_usage == 0),
    {
        self.cpu_usage == 0 && self.memory_usage == 0 && self.disk_usage == 0
    }

    /// Stamps the sample with the current wall-clock time; nothing else changes.
    pub fn update_timestamp(&mut self)
        ensures
            final(self)@ == (ServerMetricsView { timestamp: final(self).timestamp, ..old(self)@ }),
    {
        self.timestamp = now_millis();
    }

    /// Bytes received plus bytes sent.
    pub fn total_network_usage(&self) -> (r: u64)
        requires
            self.network_rx + self.network_tx <= u64::MAX,
        ensures
            r == self.network_rx + self.network_tx,
    {
        self.network_rx + self.network_tx
    }
}

} // verus!
