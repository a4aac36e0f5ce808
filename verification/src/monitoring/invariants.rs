use vstd::prelude::*;
use crate::models::metrics::ServerMetricsView;
use crate::monitoring::{
    latest_of, lemma_position, lemma_started_valid, lemma_without_valid, loops_after, loops_owed,
    monitored, persisted, position, start_actions, started, stop_actions, ticked, valid_registry,
    without, EntryView, MonitorActionView,
};

verus! {

/// What one more action does to the number of live loops of `server_id`.
proof fn lemma_loops_push(
    live: int,
    actions: Seq<MonitorActionView>,
    action: MonitorActionView,
    server_id: Seq<char>,
)
    ensures
        loops_after(live, actions.push(action), server_id) == (match action {
            MonitorActionView::StartCollector { server_id: id } => if id == server_id {
                loops_after(live, actions, server_id) + 1
            } else {
                loops_after(live, actions, server_id)
            },
            MonitorActionView::StopCollector { server_id: id } => if id == server_id {
                loops_after(live, actions, server_id) - 1
            } else {
                loops_after(live, actions, server_id)
            },
            MonitorActionView::SetOnline { .. } => loops_after(live, actions, server_id),
        }),
{
    assert(actions.push(action).drop_last() =~= actions);
    assert(actions.push(action).last() == action);
}

proof fn lemma_loops_of_start(live: int, entries: Seq<EntryView>, server_id: Seq<char>, other: Seq<char>)
    ensures
        loops_after(live, start_actions(entries, server_id), other) == (if other != server_id {
            live
        } else if monitored(entries, server_id) {
            live
        } else {
            live + 1
        }),
{
    let actions = start_actions(entries, server_id);
    let stop = MonitorActionView::StopCollector { server_id };
    let start = MonitorActionView::StartCollector { server_id };
    let online = MonitorActionView::SetOnline { server_id, online: true };
    let none = Seq::<MonitorActionView>::empty();
    if monitored(entries, server_id) {
        assert(actions =~= none.push(stop).push(start).push(online));
        lemma_loops_push(live, none, stop, other);
        lemma_loops_push(live, none.push(stop), start, other);
        lemma_loops_push(live, none.push(stop).push(start), online, other);
    } else {
        assert(actions =~= none.push(start).push(online));
        lemma_loops_push(live, none, start, other);
        lemma_loops_push(live, none.push(start), online, other);
    }
}

proof fn lemma_loops_of_stop(live: int, entries: Seq<EntryView>, server_id: Seq<char>, other: Seq<char>)
    ensures
        loops_after(live, stop_actions(entries, server_id), other) == (if other == server_id
            && monitored(entries, server_id) {
            live - 1
        } else {
            live
        }),
{
    let actions = stop_actions(entries, server_id);
    let stop = MonitorActionView::StopCollector { server_id };
    let offline = MonitorActionView::SetOnline { server_id, online: false };
    let none = Seq::<MonitorActionView>::empty();
    if monitored(entries, server_id) {
        assert(actions =~= none.push(stop).push(offline));
        lemma_loops_push(live, none, stop, other);
        lemma_loops_push(live, none.push(stop), offline, other);
    }
}

/// Starting a server's monitoring keeps the loops in step with the registry:
/// if before the call every server had one pair of loops when it was
/// monitored and none when it was not, then the same holds once the caller
/// has carried out the actions of the call.
pub proof fn lemma_start_keeps_one_loop_per_server(
    entries: Seq<EntryView>,
    server_id: Seq<char>,
    other: Seq<char>,
)
    requires
        valid_registry(entries),
    ensures
        valid_registry(started(entries, server_id)),
        loops_after(loops_owed(entries, other), start_actions(entries, server_id), other)
            == loops_owed(started(entries, server_id), other),
{
    lemma_started_valid(entries, server_id);
    lemma_loops_of_start(loops_owed(entries, other), entries, server_id, other);
}

/// Stopping a server's monitoring keeps the loops in step with the registry.
pub proof fn lemma_stop_keeps_one_loop_per_server(
    entries: Seq<EntryView>,
    server_id: Seq<char>,
    other: Seq<char>,
)
    requires
        valid_registry(entries),
    ensures
        valid_registry(without(entries, server_id)),
        loops_after(loops_owed(entries, other), stop_actions(entries, server_id), other)
            == loops_owed(without(entries, server_id), other),
{
    lemma_without_valid(entries, server_id);
    lemma_loops_of_stop(loops_owed(entries, other), entries, server_id, other);
}

/// Starting the monitoring of a server twice in a row leaves exactly one
/// collector for it: the registry holds one entry of the server, and of the
/// loops launched by the two calls one pair is alive.
pub proof fn lemma_start_twice_one_collector(entries: Seq<EntryView>, server_id: Seq<char>)
    requires
        valid_registry(entries),
    ensures
        ({
            let once = started(entries, server_id);
            let twice = started(once, server_id);
            &&& valid_registry(twice)
            &&& forall|i: int|
                0 <= i < twice.len() ==> ((#[trigger] twice[i]).server_id == server_id <==> i
                    == twice.len() - 1)
            &&& loops_after(
                loops_after(loops_owed(entries, server_id), start_actions(entries, server_id), server_id),
                start_actions(once, server_id),
                server_id,
            ) == 1
        }),
{
    let once = started(entries, server_id);
    let twice = started(once, server_id);
    lemma_start_keeps_one_loop_per_server(entries, server_id, server_id);
    lemma_start_keeps_one_loop_per_server(once, server_id, server_id);
    lemma_started_valid(once, server_id);
    lemma_position(twice, server_id);
}

/// Once a server's monitoring has stopped nothing more is persisted for it:
/// a persistence tick writes no record, and a sampling tick that still
/// arrives changes nothing, so no later persistence tick writes one either.
pub proof fn lemma_stopped_server_persists_nothing(
    entries: Seq<EntryView>,
    server_id: Seq<char>,
    late_sample: Option<ServerMetricsView>,
    now: i64,
    later: i64,
)
    requires
        valid_registry(entries),
    ensures
        persisted(without(entries, server_id), server_id, now) is None,
        ticked(without(entries, server_id), server_id, late_sample) == without(entries, server_id),
        persisted(ticked(without(entries, server_id), server_id, late_sample), server_id, later) is None,
{
    lemma_without_valid(entries, server_id);
}

/// The first read of a server that has never been monitored finds nothing,
/// and the monitoring that the read starts gives the server a running
/// collector that has not sampled yet.
pub proof fn lemma_first_read_starts_collector(entries: Seq<EntryView>, server_id: Seq<char>)
    requires
        valid_registry(entries),
        !monitored(entries, server_id),
    ensures
        latest_of(entries, server_id) is None,
        monitored(started(entries, server_id), server_id),
        started(entries, server_id)[position(started(entries, server_id), server_id)].collector.running,
        latest_of(started(entries, server_id), server_id) is None,
{
    lemma_started_valid(entries, server_id);
}

} // verus!
