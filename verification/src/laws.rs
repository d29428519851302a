//! Properties of the room subsystem, stated once for all inputs and proved
//! against the contracts in `room`.

use vstd::prelude::*;

use crate::protocol::FromBrowserV;
use crate::protocol::ToBrowserV;
use crate::room::RoomV;
use crate::room::WatcherV;
use crate::room::has_id;
use crate::room::idx_of;
use crate::room::info_of;
use crate::room::joined;
use crate::room::lemma_idx_of;
use crate::room::remove_id;
use crate::room::winfo_of;

verus! {

/// Two outbound queues agree on the broadcast stream: the shorter one is
/// exactly the tail of the longer one, so their owners have observed the
/// same broadcasts in the same relative order ever since the younger of
/// the two joined.
pub open spec fn aligned(q1: Seq<ToBrowserV>, q2: Seq<ToBrowserV>) -> bool {
    if q1.len() <= q2.len() {
        q1 == q2.subrange(q2.len() - q1.len(), q2.len() as int)
    } else {
        q2 == q1.subrange(q1.len() - q2.len(), q1.len() as int)
    }
}

/// Every pair of watchers in `ws` has aligned queues.
pub open spec fn watchers_aligned(ws: Seq<WatcherV>) -> bool {
    forall|i: int, j: int|
        0 <= i < ws.len() && 0 <= j < ws.len() ==> #[trigger] aligned(ws[i].queue, ws[j].queue)
}

/// Appending the same message to two aligned queues keeps them aligned.
proof fn lemma_aligned_push(q1: Seq<ToBrowserV>, q2: Seq<ToBrowserV>, m: ToBrowserV)
    requires
        aligned(q1, q2),
    ensures
        aligned(q1.push(m), q2.push(m)),
{
    if q1.len() <= q2.len() {
        assert(q1.push(m) =~= q2.push(m).subrange(
            q2.push(m).len() - q1.push(m).len(),
            q2.push(m).len() as int,
        ));
    } else {
        assert(q2.push(m) =~= q1.push(m).subrange(
            q1.push(m).len() - q2.push(m).len(),
            q1.push(m).len() as int,
        ));
    }
}

/// Ordering: one actor turn hands every watcher the same broadcast, so
/// watchers whose queues agreed on the stream so far still agree
/// afterwards — all watchers observe broadcasts in the same relative
/// order, and `Room::handle_event` shows that the order is the order in
/// which the actor dequeued the events: each turn appends exactly its
/// response.
pub proof fn lemma_step_keeps_broadcast_order(r: RoomV, ev: FromBrowserV)
    requires
        watchers_aligned(r.watchers),
    ensures
        watchers_aligned(r.step(ev).watchers),
{
    let ws = r.step(ev).watchers;
    let m = r.response(ev);
    assert forall|i: int, j: int|
        0 <= i < ws.len() && 0 <= j < ws.len() implies #[trigger] aligned(
        ws[i].queue,
        ws[j].queue,
    ) by {
        assert(aligned(r.watchers[i].queue, r.watchers[j].queue));
        lemma_aligned_push(r.watchers[i].queue, r.watchers[j].queue, m);
    }
}

/// The room after the actor has consumed `evs`, one turn per event, in
/// order.
pub open spec fn run(r: RoomV, evs: Seq<FromBrowserV>) -> RoomV
    decreases evs.len(),
{
    if evs.len() == 0 {
        r
    } else {
        run(r.step(evs[0]), evs.drop_first())
    }
}

/// The broadcast stream those turns produce: one response per event, in
/// the order the events were dequeued.
pub open spec fn stream(r: RoomV, evs: Seq<FromBrowserV>) -> Seq<ToBrowserV>
    decreases evs.len(),
{
    if evs.len() == 0 {
        Seq::empty()
    } else {
        seq![r.response(evs[0])] + stream(r.step(evs[0]), evs.drop_first())
    }
}

/// Ordering, over whole event sequences: the actor's turns change no
/// membership, and every watcher's queue grows by exactly the broadcast
/// stream — so all watchers observe the same broadcasts, in the same
/// order, and that order is the order in which the actor dequeued the
/// events.
pub proof fn lemma_run_broadcast_order(r: RoomV, evs: Seq<FromBrowserV>, i: int)
    requires
        0 <= i < r.watchers.len(),
    ensures
        run(r, evs).watchers.len() == r.watchers.len(),
        run(r, evs).watchers[i].id == r.watchers[i].id,
        run(r, evs).watchers[i].queue == r.watchers[i].queue + stream(r, evs),
    decreases evs.len(),
{
    if evs.len() == 0 {
        assert(run(r, evs).watchers[i].queue =~= r.watchers[i].queue + stream(r, evs));
    } else {
        let r1 = r.step(evs[0]);
        let m = r.response(evs[0]);
        assert(r1.watchers[i].queue == r.watchers[i].queue.push(m));
        lemma_run_broadcast_order(r1, evs.drop_first(), i);
        assert(run(r, evs).watchers[i].queue =~= r.watchers[i].queue + stream(r, evs));
    }
}

/// A newly registered watcher starts with an empty queue, which is
/// aligned with every other queue: registration keeps the ordering
/// property.
pub proof fn lemma_join_keeps_broadcast_order(ws: Seq<WatcherV>, w: WatcherV)
    requires
        watchers_aligned(ws),
        w.queue == Seq::<ToBrowserV>::empty(),
    ensures
        watchers_aligned(ws.push(w)),
{
    let ws2 = ws.push(w);
    assert forall|i: int, j: int|
        0 <= i < ws2.len() && 0 <= j < ws2.len() implies #[trigger] aligned(
        ws2[i].queue,
        ws2[j].queue,
    ) by {
        if i < ws.len() && j < ws.len() {
            assert(ws2[i] == ws[i]);
            assert(ws2[j] == ws[j]);
            assert(aligned(ws[i].queue, ws[j].queue));
        } else if i < ws.len() {
            let q = ws2[i].queue;
            if q.len() == 0 {
                assert(q =~= ws2[j].queue.subrange(0, 0));
            } else {
                assert(ws2[j].queue =~= q.subrange(q.len() as int, q.len() as int));
            }
        } else if j < ws.len() {
            let q = ws2[j].queue;
            if q.len() == 0 {
                assert(ws2[i].queue =~= q.subrange(0, 0));
            } else {
                assert(ws2[i].queue =~= q.subrange(q.len() as int, q.len() as int));
            }
        } else {
            assert(ws2[i].queue =~= ws2[j].queue.subrange(0, 0));
        }
    }
}

/// Deregistration removes one watcher and touches no queue: the ordering
/// property survives for everyone still registered.
pub proof fn lemma_leave_keeps_broadcast_order(ws: Seq<WatcherV>, id: u32)
    requires
        watchers_aligned(ws),
    ensures
        watchers_aligned(remove_id(ws, id)),
{
    if has_id(ws, id) {
        lemma_idx_of(ws, id);
        let k = idx_of(ws, id);
        let ws2 = ws.remove(k);
        assert forall|i: int, j: int|
            0 <= i < ws2.len() && 0 <= j < ws2.len() implies #[trigger] aligned(
            ws2[i].queue,
            ws2[j].queue,
        ) by {
            let i0: int = if i < k {
                i
            } else {
                i + 1
            };
            let j0: int = if j < k {
                j
            } else {
                j + 1
            };
            assert(ws2[i] == ws[i0]);
            assert(ws2[j] == ws[j0]);
            assert(aligned(ws[i0].queue, ws[j0].queue));
        }
    }
}

/// The registry after a run of successful registrations, one per name,
/// in order.
pub open spec fn run_joins(r: RoomV, names: Seq<Seq<char>>) -> RoomV
    decreases names.len(),
{
    if names.len() == 0 {
        r
    } else {
        run_joins(joined(r, names[0]), names.drop_first())
    }
}

/// Id uniqueness and monotonicity over any number of sequential joins:
/// the k-th join is assigned id `next_id + k`, so assigned ids strictly
/// increase; the watchers already present are untouched, the counter only
/// grows, and well-formedness survives — so no id is ever assigned twice,
/// and (with `Room::remove_watcher` keeping the counter) none is reused
/// after intervening leaves.
pub proof fn lemma_join_ids_strictly_increase(r: RoomV, names: Seq<Seq<char>>)
    requires
        r.next_id + names.len() <= u32::MAX,
    ensures
        run_joins(r, names).next_id == r.next_id + names.len(),
        run_joins(r, names).watchers.len() == r.watchers.len() + names.len(),
        forall|j: int|
            0 <= j < r.watchers.len() ==> run_joins(r, names).watchers[j] == r.watchers[j],
        forall|j: int|
            r.watchers.len() <= j < run_joins(r, names).watchers.len() ==> (#[trigger] run_joins(
                r,
                names,
            ).watchers[j]).id == r.next_id + j - r.watchers.len(),
        r.wf() ==> run_joins(r, names).wf(),
    decreases names.len(),
{
    if names.len() > 0 {
        let r1 = joined(r, names[0]);
        let rest = names.drop_first();
        lemma_join_ids_strictly_increase(r1, rest);
        assert forall|j: int|
            0 <= j < r.watchers.len() implies run_joins(r, names).watchers[j] == r.watchers[j] by {
            assert(run_joins(r1, rest).watchers[j] == r1.watchers[j]);
            assert(r1.watchers[j] == r.watchers[j]);
        }
        assert forall|j: int|
            r.watchers.len() <= j < run_joins(r, names).watchers.len() implies (
            #[trigger] run_joins(r, names).watchers[j]).id == r.next_id + j
                - r.watchers.len() by {
            if j == r.watchers.len() {
                assert(run_joins(r1, rest).watchers[j] == r1.watchers[j]);
                assert(r1.watchers[j].id == r.next_id);
            } else {
                assert((run_joins(r1, rest).watchers[j]).id == r1.next_id + j
                    - r1.watchers.len());
            }
        }
        if r.wf() {
            assert forall|i: int, j: int|
                0 <= i < j < r1.watchers.len() implies r1.watchers[i].id < r1.watchers[j].id by {
                if j < r1.watchers.len() - 1 {
                    assert(r.watchers[i].id < r.watchers[j].id);
                }
            }
        }
    }
}

/// Id uniqueness and monotonicity: in a well-formed room no two watchers
/// share an id, and every id ever assigned stays below the counter, so a
/// join — which assigns the counter's value and then advances it — can
/// never hand out an id twice, even after intervening leaves.
pub proof fn lemma_ids_unique(r: RoomV)
    requires
        r.wf(),
    ensures
        forall|i: int, j: int|
            0 <= i < r.watchers.len() && 0 <= j < r.watchers.len() && i != j
                ==> r.watchers[i].id != r.watchers[j].id,
        forall|i: int| 0 <= i < r.watchers.len() ==> r.watchers[i].id < r.next_id,
{
}

/// Snapshot consistency: the `Metadata` broadcast provoked by a
/// membership event carries the snapshot of the room as it stands when
/// the event is processed — one entry per current watcher, in registry
/// order, with that watcher's id, name and telemetry; no stale or missing
/// entries.
pub proof fn lemma_snapshot_reflects_membership(r: RoomV, ev: FromBrowserV)
    requires
        ev matches FromBrowserV::Join { .. } || ev matches FromBrowserV::Leave { .. },
    ensures
        r.response(ev) == ToBrowserV::Metadata(info_of(r)),
        info_of(r).watchers.len() == r.watchers.len(),
        forall|i: int|
            0 <= i < r.watchers.len() ==> info_of(r).watchers[i] == winfo_of(r.watchers[i]),
        forall|i: int|
            0 <= i < r.watchers.len() ==> r.step(ev).watchers[i].queue == r.watchers[i].queue.push(
                ToBrowserV::Metadata(info_of(r)),
            ),
{
}

/// Idempotent leave: removing an id from a well-formed registry leaves no
/// watcher carrying it, so a second removal — a duplicate disconnect —
/// changes nothing and, by `Room::remove_watcher`'s contract, enqueues no
/// second `Leave` event.
pub proof fn lemma_leave_idempotent(r: RoomV, id: u32)
    requires
        r.wf(),
    ensures
        !has_id(remove_id(r.watchers, id), id),
        remove_id(remove_id(r.watchers, id), id) == remove_id(r.watchers, id),
{
    let ws = r.watchers;
    if has_id(ws, id) {
        lemma_idx_of(ws, id);
        let k = idx_of(ws, id);
        let ws2 = ws.remove(k);
        assert forall|i: int| 0 <= i < ws2.len() implies ws2[i].id != id by {
            let i0: int = if i < k {
                i
            } else {
                i + 1
            };
            assert(ws2[i] == ws[i0]);
            if ws[i0].id == ws[k].id {
                assert(i0 != k);
                if i0 < k {
                    assert(ws[i0].id < ws[k].id);
                } else {
                    assert(ws[k].id < ws[i0].id);
                }
            }
        }
    }
}

/// Echo fidelity: a `Play` request from watcher `a` is answered, in the
/// same actor turn, by one `Play` broadcast to every connected watcher —
/// the original requester included — carrying the originator's id and the
/// request id and time unchanged; membership and telemetry stay as they
/// were.
pub proof fn lemma_echo_fidelity(r: RoomV, a: u32, request_id: u32, time: u64)
    ensures
        ({
            let ev = FromBrowserV::Play { id: Some(a), request_id, time };
            let out = ToBrowserV::Play { id: a, request_id, time };
            &&& r.response(ev) == out
            &&& r.step(ev).watchers.len() == r.watchers.len()
            &&& forall|i: int|
                0 <= i < r.watchers.len() ==> r.step(ev).watchers[i] == (WatcherV {
                    queue: r.watchers[i].queue.push(out),
                    ..r.watchers[i]
                })
        }),
{
}

} // verus!
