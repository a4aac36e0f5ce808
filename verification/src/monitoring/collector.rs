use vstd::prelude::*;
use crate::models::metrics::{ProcessMetrics, ServerMetrics};

pub use crate::monitoring::MetricsCollector;

verus! {

/// How many processes a sample keeps: the busiest ten.
pub const TOP_PROCESSES: usize = 10;

/// Size and free space of one disk, in bytes.
#[derive(Debug, Clone, Copy, PartialEq, Eq)]
pub struct DiskSpace {
    pub total_space: u64,
    pub available_space: u64,
}

/// Byte counters of one network interface.
#[derive(Debug, Clone, Copy)]
pub struct NetworkCounters {
    pub received: u64,
    pub transmitted: u64,
}

/// Why a sampling tick produced no reading.
#[derive(Debug)]
pub struct SamplerError {
    pub message: String,
}

/// The raw counters of one sampling tick, before any arithmetic.
///
/// `cpu_usage` is in hundredths of a percent. The process list is unordered
/// and unbounded.
#[derive(Debug)]
pub struct SystemReading {
    pub cpu_usage: u32,
    pub used_memory: u64,
    pub total_memory: u64,
    pub disks: Vec<DiskSpace>,
    pub networks: Vec<NetworkCounters>,
    pub processes: Vec<ProcessMetrics>,
}

/// `part` as a share of `whole`, in hundredths of a percent, rounded down.
/// An empty whole has no share; a share too large for 32 bits reads as the
/// largest 32-bit number.
pub open spec fn share(part: int, whole: int) -> int {
    if whole <= 0 {
        0
    } else if part * 10_000 / whole > u32::MAX {
        u32::MAX as int
    } else {
        part * 10_000 / whole
    }
}

/// A sum of byte counts as it is reported: capped at the largest 64-bit number.
pub open spec fn capped(total: int) -> int {
    if total > u64::MAX {
        u64::MAX as int
    } else {
        total
    }
}

/// Bytes in use on one disk. A disk that reports more free space than it has
/// counts as unused.
pub open spec fn used_space(disk: DiskSpace) -> int {
    if disk.available_space <= disk.total_space {
        disk.total_space - disk.available_space
    } else {
        0
    }
}

/// Total size of the disks.
pub open spec fn capacity(disks: Seq<DiskSpace>) -> int
    decreases disks.len(),
{
    if disks.len() == 0 {
        0
    } else {
        capacity(disks.drop_last()) + disks.last().total_space
    }
}

/// Total bytes in use on the disks.
pub open spec fn occupied(disks: Seq<DiskSpace>) -> int
    decreases disks.len(),
{
    if disks.len() == 0 {
        0
    } else {
        occupied(disks.drop_last()) + used_space(disks.last())
    }
}

/// Total bytes received over the interfaces.
pub open spec fn received(networks: Seq<NetworkCounters>) -> int
    decreases networks.len(),
{
    if networks.len() == 0 {
        0
    } else {
        received(networks.drop_last()) + networks.last().received
    }
}

/// Total bytes sent over the interfaces.
pub open spec fn transmitted(networks: Seq<NetworkCounters>) -> int
    decreases networks.len(),
{
    if networks.len() == 0 {
        0
    } else {
        transmitted(networks.drop_last()) + networks.last().transmitted
    }
}

/// Disk usage of a set of disks: nothing without disks, else the share of
/// the occupied bytes in the capacity.
pub open spec fn disk_usage_of(disks: Seq<DiskSpace>) -> int {
    if disks.len() == 0 {
        0
    } else {
        share(capped(occupied(disks)), capped(capacity(disks)))
    }
}

pub proof fn lemma_sums_nonnegative(disks: Seq<DiskSpace>, networks: Seq<NetworkCounters>)
    ensures
        capacity(disks) >= 0,
        occupied(disks) >= 0,
        received(networks) >= 0,
        transmitted(networks) >= 0,
    decreases disks.len() + networks.len(),
{
    if disks.len() > 0 {
        lemma_sums_nonnegative(disks.drop_last(), networks);
    } else if networks.len() > 0 {
        lemma_sums_nonnegative(disks, networks.drop_last());
    }
}

/// A part that is no larger than its whole is a share on the scale from
/// nothing to one hundred percent.
pub proof fn lemma_share_on_scale(part: int, whole: int)
    requires
        0 <= part <= whole,
    ensures
        0 <= share(part, whole) <= 10_000,
{
    if whole > 0 {
        assert(0 <= part * 10_000 / whole <= 10_000) by (nonlinear_arith)
            requires
                0 <= part <= whole,
                whole > 0,
        ;
    }
}

/// No more is occupied on a set of disks than they hold.
pub proof fn lemma_occupied_within_capacity(disks: Seq<DiskSpace>)
    ensures
        0 <= occupied(disks) <= capacity(disks),
    decreases disks.len(),
{
    if disks.len() > 0 {
        lemma_occupied_within_capacity(disks.drop_last());
    }
}

/// `part` as a share of `whole` in hundredths of a percent.
pub fn usage_share(part: u64, whole: u64) -> (r: u32)
    ensures
        r == share(part as int, whole as int),
        part <= whole ==> r <= 10_000,
{
    proof {
        if part <= whole {
            lemma_share_on_scale(part as int, whole as int);
        }
    }
    if whole == 0 {
        0
    } else {
        let scaled: u128 = part as u128 * 10_000;
        let quotient: u128 = scaled / (whole as u128);
        if quotient > u32::MAX as u128 {
            u32::MAX
        } else {
            quotient as u32
        }
    }
}

/// Adds a byte count to a capped sum.
fn add_capped(sum: u64, amount: u64) -> (r: u64)
    ensures
        r == capped(sum + amount),
{
    if sum > u64::MAX - amount {
        u64::MAX
    } else {
        sum + amount
    }
}

/// Disk usage over all disks, in hundredths of a percent: a figure from
/// nothing to one hundred percent.
pub fn calculate_disk_usage(disks: &Vec<DiskSpace>) -> (r: u32)
    ensures
        r == disk_usage_of(disks@),
        r <= 10_000,
{
    proof {
        lemma_occupied_within_capacity(disks@);
    }
    if disks.len() == 0 {
        return 0;
    }
    let mut total: u64 = 0;
    let mut used: u64 = 0;
    let mut i: usize = 0;
    while i < disks.len()
        invariant
            i <= disks.len(),
            total == capped(capacity(disks@.take(i as int))),
            used == capped(occupied(disks@.take(i as int))),
        decreases disks.len() - i,
    {
        let disk = disks[i];
        proof {
            let before = disks@.take(i as int);
            let after = disks@.take(i + 1);
            assert(after.drop_last() == before);
            assert(after.last() == disk);
            lemma_sums_nonnegative(before, Seq::empty());
        }
        total = add_capped(total, disk.total_space);
        let in_use: u64 = if disk.available_space <= disk.total_space {
            disk.total_space - disk.available_space
        } else {
            0
        };
        used = add_capped(used, in_use);
        i = i + 1;
    }
    assert(disks@.take(disks.len() as int) == disks@);
    usage_share(used, total)
}

/// Bytes received and bytes sent over all interfaces, each capped.
pub fn network_totals(networks: &Vec<NetworkCounters>) -> (r: (u64, u64))
    ensures
        r.0 == capped(received(networks@)),
        r.1 == capped(transmitted(networks@)),
{
    let mut rx: u64 = 0;
    let mut tx: u64 = 0;
    let mut i: usize = 0;
    while i < networks.len()
        invariant
            i <= networks.len(),
            rx == capped(received(networks@.take(i as int))),
            tx == capped(transmitted(networks@.take(i as int))),
        decreases networks.len() - i,
    {
        let counters = networks[i];
        proof {
            let before = networks@.take(i as int);
            let after = networks@.take(i + 1);
            assert(after.drop_last() == before);
            assert(after.last() == counters);
            lemma_sums_nonnegative(Seq::empty(), before);
        }
        rx = add_capped(rx, counters.received);
        tx = add_capped(tx, counters.transmitted);
        i = i + 1;
    }
    assert(networks@.take(networks.len() as int) == networks@);
    (rx, tx)
}

/// The ranking of processes: busier first, and of two equally busy ones the
/// one that stands earlier in the list.
pub open spec fn ranks_before(list: Seq<ProcessMetrics>, i: int, j: int) -> bool {
    list[i].cpu_usage > list[j].cpu_usage || (list[i].cpu_usage == list[j].cpu_usage && i < j)
}

/// `picks` holds, in ranking order, the positions of the best-ranked
/// processes among the first `upto` of `list`.
pub open spec fn leads(list: Seq<ProcessMetrics>, picks: Seq<int>, upto: int) -> bool {
    &&& forall|k: int| 0 <= k < picks.len() ==> 0 <= #[trigger] picks[k] < upto
    &&& forall|a: int, b: int|
        0 <= a < b < picks.len() ==> #[trigger] ranks_before(list, picks[a], picks[b])
    &&& forall|i: int, k: int|
        0 <= i < upto && 0 <= k < picks.len() && !picks.contains(i) ==> #[trigger] ranks_before(
            list,
            picks[k],
            i,
        )
}

/// `top` is the head of the ranking of `list`: its processes are those that
/// rank first, in ranking order.
pub open spec fn busiest(list: Seq<ProcessMetrics>, top: Seq<ProcessMetrics>) -> bool {
    exists|picks: Seq<int>|
        {
            &&& picks.len() == top.len()
            &&& #[trigger] leads(list, picks, list.len() as int)
            &&& forall|k: int| 0 <= k < top.len() ==> top[k] == list[picks[k]]
        }
}

proof fn lemma_ranking_agrees(
    list: Seq<ProcessMetrics>,
    first: Seq<int>,
    second: Seq<int>,
    upto: int,
    k: int,
)
    requires
        leads(list, first, upto),
        leads(list, second, upto),
        first.len() == second.len(),
        0 <= k <= first.len(),
    ensures
        forall|j: int| 0 <= j < k ==> first[j] == second[j],
    decreases k,
{
    if k > 0 {
        lemma_ranking_agrees(list, first, second, upto, k - 1);
        let x = first[k - 1];
        let y = second[k - 1];
        assert(0 <= x < upto && 0 <= y < upto);
        if x != y {
            lemma_pick_stands_there(list, first, second, upto, k - 1);
            lemma_pick_stands_there(list, second, first, upto, k - 1);
            assert(ranks_before(list, x, y) || ranks_before(list, y, x));
        }
    }
}

/// Where two rankings that agree before `at` differ at `at`, the pick of the
/// first does not rank before that of the second.
proof fn lemma_pick_stands_there(
    list: Seq<ProcessMetrics>,
    first: Seq<int>,
    second: Seq<int>,
    upto: int,
    at: int,
)
    requires
        leads(list, first, upto),
        leads(list, second, upto),
        first.len() == second.len(),
        0 <= at < first.len(),
        forall|j: int| 0 <= j < at ==> first[j] == second[j],
        first[at] != second[at],
    ensures
        !ranks_before(list, first[at], second[at]),
{
    let x = first[at];
    let y = second[at];
    assert(0 <= x < upto);
    if ranks_before(list, x, y) {
        if second.contains(x) {
            let m = choose|m: int| 0 <= m < second.len() && second[m] == x;
            if m < at {
                assert(first[m] == x);
                assert(ranks_before(list, first[m], first[at]));
            } else {
                assert(m > at);
                assert(ranks_before(list, second[at], second[m]));
            }
        } else {
            assert(ranks_before(list, second[at], x));
        }
    }
}

/// The head of the ranking is unique: two lists of equal length that both
/// are the busiest processes of `list` are the same list.
pub proof fn lemma_busiest_unique(
    list: Seq<ProcessMetrics>,
    first: Seq<ProcessMetrics>,
    second: Seq<ProcessMetrics>,
)
    requires
        busiest(list, first),
        busiest(list, second),
        first.len() == second.len(),
    ensures
        first == second,
{
    let a = choose|picks: Seq<int>|
        {
            &&& picks.len() == first.len()
            &&& #[trigger] leads(list, picks, list.len() as int)
            &&& forall|k: int| 0 <= k < first.len() ==> first[k] == list[picks[k]]
        };
    let b = choose|picks: Seq<int>|
        {
            &&& picks.len() == second.len()
            &&& #[trigger] leads(list, picks, list.len() as int)
            &&& forall|k: int| 0 <= k < second.len() ==> second[k] == list[picks[k]]
        };
    lemma_ranking_agrees(list, a, b, list.len() as int, a.len() as int);
    assert(first =~= second);
}

/// How many processes a sample of `count` running processes keeps.
pub open spec fn kept(count: int) -> int {
    if count < TOP_PROCESSES {
        count
    } else {
        TOP_PROCESSES as int
    }
}

/// The ten busiest processes of `list`, busiest first; processes of equal
/// CPU usage keep the order they had in `list`.
pub fn collect_process_metrics(list: &Vec<ProcessMetrics>) -> (top: Vec<ProcessMetrics>)
    ensures
        top@.len() == kept(list@.len() as int),
        busiest(list@, top@),
{
    let n = list.len();
    let mut order: Vec<usize> = Vec::new();
    let ghost mut picks: Seq<int> = Seq::empty();
    let mut i: usize = 0;
    while i < n
        invariant
            n == list.len(),
            i <= n,
            order.len() == kept(i as int),
            picks.len() == order.len(),
            forall|k: int| 0 <= k < picks.len() ==> picks[k] == #[trigger] order[k],
            leads(list@, picks, i as int),
            i <= TOP_PROCESSES ==> forall|j: int| 0 <= j < i ==> picks.contains(j),
        decreases n - i,
    {
        let ghost before = picks;
        let usage = list[i].cpu_usage;
        let mut p: usize = 0;
        while p < order.len() && list[order[p]].cpu_usage >= usage
            invariant
                n == list.len(),
                i < n,
                p <= order.len(),
                picks.len() == order.len(),
                usage == list[i as int].cpu_usage,
                forall|k: int| 0 <= k < picks.len() ==> picks[k] == #[trigger] order[k],
                forall|k: int| 0 <= k < picks.len() ==> 0 <= #[trigger] picks[k] < i,
                forall|k: int| 0 <= k < p ==> list[#[trigger] picks[k]].cpu_usage >= usage,
            decreases order.len() - p,
        {
            p = p + 1;
        }
        proof {
            assert forall|k: int| 0 <= k < p implies #[trigger] ranks_before(
                list@,
                before[k],
                i as int,
            ) by {
                assert(list@[before[k]].cpu_usage >= usage);
            }
            if p < before.len() {
                assert(before[p as int] == order[p as int]);
                assert forall|k: int| p <= k < before.len() implies #[trigger] ranks_before(
                    list@,
                    i as int,
                    before[k],
                ) by {
                    if k > p {
                        assert(ranks_before(list@, before[p as int], before[k]));
                    }
                }
            }
        }
        if p < TOP_PROCESSES {
            order.insert(p, i);
            proof {
                picks = before.insert(p as int, i as int);
                assert forall|k: int| 0 <= k < picks.len() implies picks[k] == #[trigger] order[k] by {
                    if k < p {
                    } else if k == p {
                    } else {
                        assert(picks[k] == before[k - 1]);
                    }
                }
                assert forall|j: int| 0 <= j < i && before.contains(j) implies picks.contains(j) by {
                    let k = choose|k: int| 0 <= k < before.len() && before[k] == j;
                    if k < p {
                        assert(picks[k] == j);
                    } else {
                        assert(picks[k + 1] == j);
                    }
                }
                assert(picks[p as int] == i);
                assert(picks.contains(i as int));
                assert forall|a: int, b: int| 0 <= a < b < picks.len() implies #[trigger] ranks_before(
                    list@,
                    picks[a],
                    picks[b],
                ) by {
                    if b < p {
                        assert(ranks_before(list@, before[a], before[b]));
                    } else if b == p {
                        assert(ranks_before(list@, before[a], i as int));
                    } else if a < p {
                        assert(ranks_before(list@, before[a], before[b - 1]));
                    } else if a == p {
                        assert(ranks_before(list@, i as int, before[b - 1]));
                    } else {
                        assert(ranks_before(list@, before[a - 1], before[b - 1]));
                    }
                }
                assert forall|j: int, k: int|
                    0 <= j < i + 1 && 0 <= k < picks.len() && !picks.contains(j) implies #[trigger] ranks_before(
                    list@,
                    picks[k],
                    j,
                ) by {
                    assert(j != i);
                    assert(!before.contains(j));
                    assert(i > TOP_PROCESSES || before.contains(j));
                    assert(before.len() == TOP_PROCESSES);
                    assert(ranks_before(list@, before[p as int], j));
                    if k < p {
                        assert(ranks_before(list@, before[k], j));
                    } else if k == p {
                        assert(ranks_before(list@, i as int, before[p as int]));
                    } else {
                        assert(ranks_before(list@, before[k - 1], j));
                    }
                }
                assert(leads(list@, picks, i + 1));
            }
            if order.len() > TOP_PROCESSES {
                let ghost full = picks;
                order.pop();
                proof {
                    picks = full.drop_last();
                    let dropped = full.last();
                    assert forall|j: int| 0 <= j < i + 1 && !picks.contains(j) && j != dropped implies !full.contains(j) by {
                        if full.contains(j) {
                            let k = choose|k: int| 0 <= k < full.len() && full[k] == j;
                            assert(picks[k] == j);
                        }
                    }
                    assert forall|a: int, b: int| 0 <= a < b < picks.len() implies #[trigger] ranks_before(
                        list@,
                        picks[a],
                        picks[b],
                    ) by {
                        assert(ranks_before(list@, full[a], full[b]));
                    }
                    assert forall|j: int, k: int|
                        0 <= j < i + 1 && 0 <= k < picks.len() && !picks.contains(j) implies #[trigger] ranks_before(
                        list@,
                        picks[k],
                        j,
                    ) by {
                        if j == dropped {
                            assert(ranks_before(list@, full[k], full[full.len() - 1]));
                        } else {
                            assert(ranks_before(list@, full[k], j));
                        }
                    }
                    assert(leads(list@, picks, i + 1));
                }
            }
        } else {
            proof {
                assert forall|j: int, k: int|
                    0 <= j < i + 1 && 0 <= k < picks.len() && !picks.contains(j) implies #[trigger] ranks_before(
                    list@,
                    picks[k],
                    j,
                ) by {
                    if j == i {
                        assert(ranks_before(list@, before[k], i as int));
                    } else {
                        assert(ranks_before(list@, before[k], j));
                    }
                }
                assert(leads(list@, picks, i + 1));
            }
        }
        i = i + 1;
    }
    let mut top: Vec<ProcessMetrics> = Vec::new();
    let mut k: usize = 0;
    while k < order.len()
        invariant
            n == list.len(),
            k <= order.len(),
            top.len() == k,
            picks.len() == order.len(),
            forall|j: int| 0 <= j < picks.len() ==> picks[j] == #[trigger] order[j],
            forall|j: int| 0 <= j < picks.len() ==> 0 <= #[trigger] picks[j] < n,
            forall|j: int| 0 <= j < k ==> #[trigger] top[j] == list[picks[j]],
        decreases order.len() - k,
    {
        assert(picks[k as int] == order[k as int]);
        top.push(list[order[k]].clone());
        k = k + 1;
    }
    assert(leads(list@, picks, list@.len() as int));
    top
}

/// The sample that a reading amounts to, stamped `now`.
pub open spec fn sample_of(reading: SystemReading, now: i64, sample: ServerMetrics) -> bool {
    &&& sample.cpu_usage == reading.cpu_usage
    &&& sample.memory_usage == share(reading.used_memory as int, reading.total_memory as int)
    &&& sample.disk_usage == disk_usage_of(reading.disks@)
    &&& sample.network_rx == capped(received(reading.networks@))
    &&& sample.network_tx == capped(transmitted(reading.networks@))
    &&& sample.timestamp == now
    &&& sample.processes@.len() == kept(reading.processes@.len() as int)
    &&& busiest(reading.processes@, sample.processes@)
}

/// What a sample of a reading is sure to respect: at most ten processes, a
/// disk usage on the scale, and a memory usage on the scale wherever no more
/// memory is in use than there is.
pub proof fn lemma_sample_in_bounds(reading: SystemReading, now: i64, sample: ServerMetrics)
    requires
        sample_of(reading, now, sample),
    ensures
        sample.processes@.len() <= TOP_PROCESSES,
        sample.disk_usage <= 10_000,
        reading.used_memory <= reading.total_memory ==> sample.memory_usage <= 10_000,
{
    lemma_occupied_within_capacity(reading.disks@);
    if reading.disks@.len() > 0 {
        lemma_share_on_scale(capped(occupied(reading.disks@)), capped(capacity(reading.disks@)));
    }
    if reading.used_memory <= reading.total_memory {
        lemma_share_on_scale(reading.used_memory as int, reading.total_memory as int);
    }
}

/// Turns the raw counters of one tick into a sample: memory and disk usage
/// as shares, the network counters summed over the interfaces, and the ten
/// busiest processes.
pub fn measure(reading: &SystemReading, now: i64) -> (sample: ServerMetrics)
    ensures
        sample_of(*reading, now, sample),
{
    let totals = network_totals(&reading.networks);
    ServerMetrics {
        cpu_usage: reading.cpu_usage,
        memory_usage: usage_share(reading.used_memory, reading.total_memory),
        disk_usage: calculate_disk_usage(&reading.disks),
        network_rx: totals.0,
        network_tx: totals.1,
        timestamp: now,
        processes: collect_process_metrics(&reading.processes),
    }
}

} // verus!
