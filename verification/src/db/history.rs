use vstd::prelude::*;
use crate::db::models::{MetricsSnapshot, MetricsSnapshotView};
use crate::text::owned;

verus! {

/// What a history holds: its records, oldest first, and the id that the
/// next record gets.
pub struct HistoryView {
    pub records: Seq<MetricsSnapshotView>,
    pub next_id: i64,
}

/// The records stand in the order of their timestamps.
pub open spec fn ascending(records: Seq<MetricsSnapshotView>) -> bool {
    forall|i: int, j: int|
        0 <= i < j < records.len() ==> (#[trigger] records[i]).timestamp <= (
        #[trigger] records[j]).timestamp
}

/// Where a record stamped `timestamp` goes: behind the records that are not
/// younger than it.
pub open spec fn slot(records: Seq<MetricsSnapshotView>, timestamp: i64) -> int
    decreases records.len(),
{
    if records.len() == 0 {
        0
    } else if records.last().timestamp <= timestamp {
        records.len() as int
    } else {
        slot(records.drop_last(), timestamp)
    }
}

/// The record as the history keeps it: under the id that the history gave.
pub open spec fn filed(snapshot: MetricsSnapshotView, id: i64) -> MetricsSnapshotView {
    MetricsSnapshotView { id, ..snapshot }
}

/// The id after `id`; the largest id is its own successor.
pub open spec fn following(id: i64) -> i64 {
    if id < i64::MAX {
        (id + 1) as i64
    } else {
        id
    }
}

/// The history after `snapshot` is saved.
pub open spec fn saved(history: HistoryView, snapshot: MetricsSnapshotView) -> HistoryView {
    HistoryView {
        records: history.records.insert(
            slot(history.records, snapshot.timestamp),
            filed(snapshot, history.next_id),
        ),
        next_id: following(history.next_id),
    }
}

/// Whether a query for `server_id` over the window from `from` up to, not
/// including, `to` selects the record.
pub open spec fn selects(record: MetricsSnapshotView, server_id: Seq<char>, from: i64, to: i64) -> bool {
    record.server_id == server_id && from <= record.timestamp < to
}

/// The records that a query selects, in the order of the history.
pub open spec fn window(
    records: Seq<MetricsSnapshotView>,
    server_id: Seq<char>,
    from: i64,
    to: i64,
) -> Seq<MetricsSnapshotView>
    decreases records.len(),
{
    if records.len() == 0 {
        Seq::empty()
    } else {
        let older = window(records.drop_last(), server_id, from, to);
        if selects(records.last(), server_id, from, to) {
            older.push(records.last())
        } else {
            older
        }
    }
}

/// The contents of a list of records.
pub open spec fn record_views(records: Seq<MetricsSnapshot>) -> Seq<MetricsSnapshotView> {
    records.map_values(|r: MetricsSnapshot| r@)
}

/// The history of all servers in memory: append-only, ordered by time.
///
/// It states what any store of snapshots owes its callers, and serves where
/// no durable store is at hand.
#[derive(Debug)]
pub struct MetricsHistory {
    records: Vec<MetricsSnapshot>,
    next_id: i64,
}

impl View for MetricsHistory {
    type V = HistoryView;

    closed spec fn view(&self) -> HistoryView {
        HistoryView { records: record_views(self.records@), next_id: self.next_id }
    }
}

impl MetricsHistory {
    #[verifier::type_invariant]
    spec fn well_formed(self) -> bool {
        ascending(record_views(self.records@))
    }

    /// An empty history whose first record gets the id 1.
    pub fn new() -> (r: Self)
        ensures
            r@ == (HistoryView { records: Seq::empty(), next_id: 1 }),
    {
        let r = MetricsHistory { records: Vec::new(), next_id: 1 };
        assert(record_views(r.records@) =~= Seq::empty());
        r
    }

    /// How many records the history holds.
    pub fn len(&self) -> (r: usize)
        ensures
            r == self@.records.len(),
    {
        self.records.len()
    }

    fn take_records(&mut self) -> (r: (Vec<MetricsSnapshot>, i64))
        ensures
            record_views(r.0@) == old(self)@.records,
            r.1 == old(self)@.next_id,
            ascending(old(self)@.records),
    {
        proof {
            use_type_invariant(&*self);
        }
        let mut taken = MetricsHistory { records: Vec::new(), next_id: 1 };
        assert(record_views(taken.records@) =~= Seq::empty());
        std::mem::swap(self, &mut taken);
        let next_id = taken.next_id;
        (taken.records, next_id)
    }

    /// Appends a record and returns the id that it got. The record goes
    /// behind all records that are not younger, so the history stays in the
    /// order of time; nothing that was saved before changes or leaves.
    pub fn save_metrics(&mut self, snapshot: MetricsSnapshot) -> (id: i64)
        ensures
            id == old(self)@.next_id,
            final(self)@ == saved(old(self)@, snapshot@),
            ascending(old(self)@.records),
            ascending(final(self)@.records),
    {
        let ghost before = self@;
        let (mut records, id) = self.take_records();
        let mut at: usize = records.len();
        while at > 0 && records[at - 1].timestamp > snapshot.timestamp
            invariant
                at <= records.len(),
                record_views(records@) == before.records,
                forall|k: int|
                    at <= k < records.len() ==> (#[trigger] before.records[k]).timestamp
                        > snapshot.timestamp,
            decreases at,
        {
            assert(before.records[at - 1] == records[at - 1]@);
            at = at - 1;
        }
        proof {
            if at > 0 {
                assert(before.records[at - 1] == records[at - 1]@);
            }
            lemma_slot_is(before.records, snapshot.timestamp, at as int);
            lemma_saved_ascending(before, snapshot@);
        }
        let mut record = snapshot;
        record.id = id;
        records.insert(at, record);
        let next_id = if id < i64::MAX {
            id + 1
        } else {
            id
        };
        assert(record_views(records@) =~= saved(before, snapshot@).records);
        *self = MetricsHistory { records, next_id };
        id
    }

    /// The records of `server_id` with a timestamp from `from` up to, not
    /// including, `to`, oldest first.
    pub fn get_server_metrics(&self, server_id: &str, from: i64, to: i64) -> (r: Vec<MetricsSnapshot>)
        ensures
            record_views(r@) == window(self@.records, server_id@, from, to),
    {
        let wanted = owned(server_id);
        let mut found: Vec<MetricsSnapshot> = Vec::new();
        let mut i: usize = 0;
        assert(record_views(found@) =~= Seq::empty());
        while i < self.records.len()
            invariant
                i <= self.records.len(),
                wanted@ == server_id@,
                record_views(found@) == window(
                    record_views(self.records@).take(i as int),
                    server_id@,
                    from,
                    to,
                ),
            decreases self.records.len() - i,
        {
            let record = &self.records[i];
            proof {
                let all = record_views(self.records@);
                assert(all.take(i + 1).drop_last() == all.take(i as int));
                assert(all.take(i + 1).last() == record@);
            }
            if from <= record.timestamp && record.timestamp < to && record.server_id == wanted {
                let ghost earlier = record_views(found@);
                found.push(record.clone());
                assert(record_views(found@) =~= earlier.push(record@));
            }
            i = i + 1;
        }
        assert(record_views(self.records@).take(self.records.len() as int) == record_views(
            self.records@,
        ));
        found
    }
}

/// A query returns exactly the records that it selects: every record of the
/// window is a record of the history that the query selects, and every such
/// record of the history is in the window.
pub proof fn lemma_window_members(
    records: Seq<MetricsSnapshotView>,
    server_id: Seq<char>,
    from: i64,
    to: i64,
)
    ensures
        forall|record: MetricsSnapshotView| #[trigger]
            window(records, server_id, from, to).contains(record) <==> (records.contains(record)
                && selects(record, server_id, from, to)),
    decreases records.len(),
{
    let found = window(records, server_id, from, to);
    if records.len() == 0 {
        assert forall|record: MetricsSnapshotView| #[trigger]
            found.contains(record) <==> (records.contains(record) && selects(
                record,
                server_id,
                from,
                to,
            )) by {}
    } else {
        let rest = records.drop_last();
        let older = window(rest, server_id, from, to);
        lemma_window_members(rest, server_id, from, to);
        assert forall|record: MetricsSnapshotView| #[trigger]
            found.contains(record) <==> (records.contains(record) && selects(
                record,
                server_id,
                from,
                to,
            )) by {
            if found.contains(record) {
                let k = choose|k: int| 0 <= k < found.len() && found[k] == record;
                if k < older.len() {
                    assert(older[k] == record);
                    assert(older.contains(record));
                    let at = choose|at: int| 0 <= at < rest.len() && rest[at] == record;
                    assert(records[at] == record);
                } else {
                    assert(record == records.last());
                    assert(records[records.len() - 1] == record);
                }
            }
            if records.contains(record) && selects(record, server_id, from, to) {
                let at = choose|at: int| 0 <= at < records.len() && records[at] == record;
                if at < rest.len() {
                    assert(rest[at] == record);
                    assert(rest.contains(record));
                    assert(older.contains(record));
                    let k = choose|k: int| 0 <= k < older.len() && older[k] == record;
                    assert(found[k] == record);
                } else {
                    assert(found[found.len() - 1] == record);
                }
            }
        }
    }
}

/// A record that is saved is found again, with the fields it was saved with,
/// by every query for its server over a window that holds its timestamp.
pub proof fn lemma_saved_record_is_found(
    history: HistoryView,
    snapshot: MetricsSnapshotView,
    from: i64,
    to: i64,
)
    requires
        from <= snapshot.timestamp < to,
    ensures
        window(saved(history, snapshot).records, snapshot.server_id, from, to).contains(
            filed(snapshot, history.next_id),
        ),
        filed(snapshot, history.next_id) == (MetricsSnapshotView {
            id: history.next_id,
            ..snapshot
        }),
{
    let records = saved(history, snapshot).records;
    let at = slot(history.records, snapshot.timestamp);
    lemma_slot_in_range(history.records, snapshot.timestamp);
    assert(records[at] == filed(snapshot, history.next_id));
    assert(records.contains(filed(snapshot, history.next_id)));
    lemma_window_members(records, snapshot.server_id, from, to);
}

/// The place of a record is where the younger records begin.
pub proof fn lemma_slot_is(records: Seq<MetricsSnapshotView>, timestamp: i64, at: int)
    requires
        0 <= at <= records.len(),
        forall|k: int| at <= k < records.len() ==> (#[trigger] records[k]).timestamp > timestamp,
        at > 0 ==> records[at - 1].timestamp <= timestamp,
    ensures
        slot(records, timestamp) == at,
    decreases records.len(),
{
    if records.len() > 0 {
        if records.last().timestamp <= timestamp {
            if at < records.len() {
                assert(records[records.len() - 1].timestamp > timestamp);
            }
        } else {
            let rest = records.drop_last();
            assert forall|k: int| at <= k < rest.len() implies (#[trigger] rest[k]).timestamp
                > timestamp by {
                assert(rest[k] == records[k]);
            }
            if at > 0 {
                assert(rest[at - 1] == records[at - 1]);
            }
            lemma_slot_is(rest, timestamp, at);
        }
    }
}

/// In a history in the order of time, the records before the place of a
/// record are not younger than it, and those behind are.
pub proof fn lemma_slot_splits(records: Seq<MetricsSnapshotView>, timestamp: i64)
    requires
        ascending(records),
    ensures
        0 <= slot(records, timestamp) <= records.len(),
        forall|k: int|
            0 <= k < slot(records, timestamp) ==> (#[trigger] records[k]).timestamp <= timestamp,
        forall|k: int|
            slot(records, timestamp) <= k < records.len() ==> (#[trigger] records[k]).timestamp
                > timestamp,
    decreases records.len(),
{
    if records.len() > 0 {
        let rest = records.drop_last();
        if records.last().timestamp <= timestamp {
            assert forall|k: int| 0 <= k < records.len() implies (#[trigger] records[k]).timestamp
                <= timestamp by {
                if k < records.len() - 1 {
                    assert(records[k].timestamp <= records[records.len() - 1].timestamp);
                }
            }
        } else {
            assert forall|i: int, j: int| 0 <= i < j < rest.len() implies (#[trigger] rest[i]).timestamp
                <= (#[trigger] rest[j]).timestamp by {
                assert(rest[i] == records[i] && rest[j] == records[j]);
            }
            lemma_slot_splits(rest, timestamp);
            assert forall|k: int| 0 <= k < slot(records, timestamp) implies (#[trigger] records[k]).timestamp
                <= timestamp by {
                assert(rest[k] == records[k]);
            }
            assert forall|k: int| slot(records, timestamp) <= k < records.len() implies (
            #[trigger] records[k]).timestamp > timestamp by {
                if k < rest.len() {
                    assert(rest[k] == records[k]);
                }
            }
        }
    }
}

/// Saving keeps the history in the order of time.
pub proof fn lemma_saved_ascending(history: HistoryView, snapshot: MetricsSnapshotView)
    requires
        ascending(history.records),
    ensures
        ascending(saved(history, snapshot).records),
{
    let before = history.records;
    let after = saved(history, snapshot).records;
    let at = slot(before, snapshot.timestamp);
    lemma_slot_splits(before, snapshot.timestamp);
    assert forall|i: int, j: int| 0 <= i < j < after.len() implies (#[trigger] after[i]).timestamp
        <= (#[trigger] after[j]).timestamp by {
        if j < at {
            assert(after[i] == before[i] && after[j] == before[j]);
        } else if j == at {
            assert(after[i] == before[i]);
        } else if i < at {
            assert(after[i] == before[i] && after[j] == before[j - 1]);
        } else if i == at {
            assert(after[j] == before[j - 1]);
        } else {
            assert(after[i] == before[i - 1] && after[j] == before[j - 1]);
        }
    }
}

/// A record goes to a place inside the history or at its end.
pub proof fn lemma_slot_in_range(records: Seq<MetricsSnapshotView>, timestamp: i64)
    ensures
        0 <= slot(records, timestamp) <= records.len(),
    decreases records.len(),
{
    if records.len() > 0 && records.last().timestamp > timestamp {
        lemma_slot_in_range(records.drop_last(), timestamp);
    }
}

/// Saving leaves everything that was saved before in the history, so what a
/// query found before it finds afterwards too.
pub proof fn lemma_history_only_grows(
    history: HistoryView,
    snapshot: MetricsSnapshotView,
    server_id: Seq<char>,
    from: i64,
    to: i64,
)
    ensures
        saved(history, snapshot).records.len() == history.records.len() + 1,
        forall|record: MetricsSnapshotView|
            history.records.contains(record) ==> #[trigger] saved(
                history,
                snapshot,
            ).records.contains(record),
        forall|record: MetricsSnapshotView|
            window(history.records, server_id, from, to).contains(record) ==> #[trigger] window(
                saved(history, snapshot).records,
                server_id,
                from,
                to,
            ).contains(record),
{
    let after = saved(history, snapshot).records;
    let at = slot(history.records, snapshot.timestamp);
    lemma_slot_in_range(history.records, snapshot.timestamp);
    assert forall|record: MetricsSnapshotView| history.records.contains(record) implies after.contains(
        record,
    ) by {
        let k = choose|k: int| 0 <= k < history.records.len() && history.records[k] == record;
        if k < at {
            assert(after[k] == record);
        } else {
            assert(after[k + 1] == record);
        }
    }
    lemma_window_members(history.records, server_id, from, to);
    lemma_window_members(after, server_id, from, to);
}

/// The records of a window have the order of the history: a window of a
/// history in the order of time is in the order of time.
pub proof fn lemma_window_ascending(
    records: Seq<MetricsSnapshotView>,
    server_id: Seq<char>,
    from: i64,
    to: i64,
)
    requires
        ascending(records),
    ensures
        ascending(window(records, server_id, from, to)),
    decreases records.len(),
{
    if records.len() > 0 {
        let rest = records.drop_last();
        let older = window(rest, server_id, from, to);
        assert forall|i: int, j: int| 0 <= i < j < rest.len() implies (#[trigger] rest[i]).timestamp
            <= (#[trigger] rest[j]).timestamp by {
            assert(rest[i] == records[i] && rest[j] == records[j]);
        }
        lemma_window_ascending(rest, server_id, from, to);
        lemma_window_members(rest, server_id, from, to);
        let found = window(records, server_id, from, to);
        assert forall|i: int, j: int| 0 <= i < j < found.len() implies (#[trigger] found[i]).timestamp
            <= (#[trigger] found[j]).timestamp by {
            if j < older.len() {
                assert(found[i] == older[i] && found[j] == older[j]);
            } else {
                assert(found[i] == older[i]);
                assert(older.contains(older[i]));
                let at = choose|at: int| 0 <= at < rest.len() && rest[at] == older[i];
                assert(records[at].timestamp <= records[records.len() - 1].timestamp);
            }
        }
    }
}

} // verus!
