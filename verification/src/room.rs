//! The per-room watcher registry and the room actor's event step.
//!
//! A `Room` owns the ordered watcher collection and the monotone id
//! counter.  Registry operations (`add_watcher`, `remove_watcher`,
//! `update_status`) mutate membership and telemetry; `handle_event` is one
//! turn of the room actor: it applies an inbound event and fans the
//! resulting outbound message out to every current watcher's queue.  The
//! caller (one sequential actor per room) drains those queues and delivers
//! their contents to the transport connections.

use vstd::prelude::*;
use vstd::string::StringExecFns;

use crate::protocol::FromBrowser;
use crate::protocol::FromBrowserV;
use crate::protocol::event_ok;
use crate::protocol::RoomInfo;
use crate::protocol::RoomInfoV;
use crate::protocol::RoomState;
use crate::protocol::ToBrowser;
use crate::protocol::ToBrowserV;
use crate::protocol::WatcherInfo;
use crate::protocol::WatcherInfoV;

verus! {

/// Mathematical model of a `Watcher`.
pub ghost struct WatcherV {
    pub id: u32,
    pub name: Seq<char>,
    pub buffered: u64,
    pub position: u64,
    pub state: RoomState,
    pub queue: Seq<ToBrowserV>,
}

/// Mathematical model of a `Room`.
pub ghost struct RoomV {
    pub name: Seq<char>,
    pub url: Seq<char>,
    pub state: RoomState,
    pub watchers: Seq<WatcherV>,
    pub next_id: u32,
}

/// The snapshot projection of one watcher: everything but its queue.
pub open spec fn winfo_of(w: WatcherV) -> WatcherInfoV {
    WatcherInfoV {
        id: w.id,
        name: w.name,
        buffered: w.buffered,
        position: w.position,
        state: w.state,
    }
}

/// The snapshot of a room: its identity and the projected watcher list,
/// in registry order.  The room has no authoritative media timeline, so
/// the room-level position is always the zero code.
pub open spec fn info_of(r: RoomV) -> RoomInfoV {
    RoomInfoV {
        name: r.name,
        url: r.url,
        position: 0,
        state: r.state,
        watchers: r.watchers.map(|i: int, w: WatcherV| winfo_of(w)),
    }
}

/// Whether some watcher in `ws` carries the id.
pub open spec fn has_id(ws: Seq<WatcherV>, id: u32) -> bool {
    exists|i: int| 0 <= i < ws.len() && ws[i].id == id
}

/// `ws` with the first watcher carrying `id` taken out; `ws` itself when
/// none does.
pub open spec fn remove_id(ws: Seq<WatcherV>, id: u32) -> Seq<WatcherV> {
    if has_id(ws, id) {
        ws.remove(idx_of(ws, id))
    } else {
        ws
    }
}

/// The pending outbound queue of the watcher carrying `id`; empty when
/// none does.
pub open spec fn queue_of(ws: Seq<WatcherV>, id: u32) -> Seq<ToBrowserV> {
    if has_id(ws, id) {
        ws[idx_of(ws, id)].queue
    } else {
        Seq::empty()
    }
}

/// Every watcher carrying `id` with its queue emptied; the rest unchanged.
pub open spec fn clear_queue(ws: Seq<WatcherV>, id: u32) -> Seq<WatcherV> {
    ws.map(
        |i: int, w: WatcherV|
            if w.id == id {
                WatcherV { queue: Seq::empty(), ..w }
            } else {
                w
            },
    )
}

/// The index of the first watcher in `ws` carrying `id`; -1 when none
/// does.  In a well-formed room ids are unique, so the first is the only
/// one.
pub open spec fn idx_of(ws: Seq<WatcherV>, id: u32) -> int
    decreases ws.len(),
{
    if ws.len() == 0 {
        -1
    } else if ws[0].id == id {
        0
    } else {
        let r = idx_of(ws.drop_first(), id);
        if r == -1 {
            -1
        } else {
            r + 1
        }
    }
}

/// What `idx_of` finds: a watcher carrying the id, first of its kind, or
/// the certainty that none does.
pub proof fn lemma_idx_of(ws: Seq<WatcherV>, id: u32)
    ensures
        idx_of(ws, id) == -1 <==> !has_id(ws, id),
        has_id(ws, id) ==> 0 <= idx_of(ws, id) < ws.len() && ws[idx_of(ws, id)].id == id,
        forall|k: int| 0 <= k < idx_of(ws, id) ==> ws[k].id != id,
    decreases ws.len(),
{
    if ws.len() > 0 && ws[0].id != id {
        lemma_idx_of(ws.drop_first(), id);
        assert forall|i: int| 0 <= i < ws.len() && ws[i].id == id implies has_id(
            ws.drop_first(),
            id,
        ) by {
            assert(ws.drop_first()[i - 1].id == id);
        }
        assert forall|k: int| 0 <= k < idx_of(ws, id) implies ws[k].id != id by {
            if k > 0 {
                assert(ws.drop_first()[k - 1].id != id);
                assert(ws[k] == ws.drop_first()[k - 1]);
            }
        }
    }
}

/// Every watcher carrying `id` with its telemetry overwritten; the rest
/// unchanged.  Ids are unique in a well-formed room, so this touches at
/// most one watcher there.
pub open spec fn apply_status(
    ws: Seq<WatcherV>,
    id: u32,
    position: u64,
    buffered: u64,
    state: RoomState,
) -> Seq<WatcherV> {
    ws.map(
        |i: int, w: WatcherV|
            if w.id == id {
                WatcherV { position, buffered, state, ..w }
            } else {
                w
            },
    )
}

/// Every watcher's queue extended by one copy of `m`: the broadcast
/// fan-out.
pub open spec fn push_all(ws: Seq<WatcherV>, m: ToBrowserV) -> Seq<WatcherV> {
    ws.map(|i: int, w: WatcherV| WatcherV { queue: w.queue.push(m), ..w })
}

/// The registry effect of one successful registration under `name`: a
/// watcher carrying the counter's value, default telemetry and an empty
/// queue is appended, and the counter advances.
pub open spec fn joined(r: RoomV, name: Seq<char>) -> RoomV {
    RoomV {
        watchers: r.watchers.push(
            WatcherV {
                id: r.next_id,
                name,
                buffered: 0,
                position: 0,
                state: RoomState::Paused,
                queue: Seq::empty(),
            },
        ),
        next_id: (r.next_id + 1) as u32,
        ..r
    }
}

/// A display name that carries some visual marker: it ends with the
/// caller's chosen base name, preceded by a separating space.  The marker
/// itself is cosmetic and has no protocol meaning.
pub open spec fn decorated(full: Seq<char>, base: Seq<char>) -> bool {
    &&& full.len() >= base.len() + 1
    &&& full.subrange(full.len() - base.len(), full.len() as int) == base
    &&& full[full.len() - base.len() - 1] == ' '
}

impl RoomV {
    /// Well-formedness: ids are assigned in strictly increasing registry
    /// order (hence unique) and stay below the monotone counter (hence
    /// never reused).
    pub open spec fn wf(self) -> bool {
        &&& forall|i: int, j: int|
            0 <= i < j < self.watchers.len() ==> self.watchers[i].id < self.watchers[j].id
        &&& forall|i: int| 0 <= i < self.watchers.len() ==> self.watchers[i].id < self.next_id
    }

    /// The registry effect of one inbound event: only `Status` changes
    /// anything, overwriting the reporter's telemetry.
    pub open spec fn with_telemetry(self, ev: FromBrowserV) -> RoomV {
        match ev {
            FromBrowserV::Status { id, position, buffered, state } => RoomV {
                watchers: apply_status(self.watchers, id.unwrap(), position, buffered, state),
                ..self
            },
            _ => self,
        }
    }

    /// The outbound message one inbound event provokes: membership and
    /// telemetry changes broadcast a fresh snapshot; a control request is
    /// echoed verbatim with the originator's resolved id.
    pub open spec fn response(self, ev: FromBrowserV) -> ToBrowserV {
        match ev {
            FromBrowserV::Play { id, request_id, time } => ToBrowserV::Play {
                id: id.unwrap(),
                request_id,
                time,
            },
            FromBrowserV::Pause { id, request_id, time } => ToBrowserV::Pause {
                id: id.unwrap(),
                request_id,
                time,
            },
            FromBrowserV::Seek { id, request_id, time } => ToBrowserV::Seek {
                id: id.unwrap(),
                request_id,
                time,
            },
            _ => ToBrowserV::Metadata(info_of(self.with_telemetry(ev))),
        }
    }

    /// One turn of the room actor: apply the event's registry effect, then
    /// fan its response out to every current watcher's queue.
    pub open spec fn step(self, ev: FromBrowserV) -> RoomV {
        let mid = self.with_telemetry(ev);
        RoomV { watchers: push_all(mid.watchers, self.response(ev)), ..mid }
    }
}

/// One connected viewer: assigned id, decorated display name, last
/// self-reported telemetry, and the private queue of outbound messages
/// awaiting delivery to its connection.
pub struct Watcher {
    pub name: String,
    pub id: u32,
    pub buffered: u64,
    pub position: u64,
    pub state: RoomState,
    pub queue: Vec<ToBrowser>,
}

impl View for Watcher {
    type V = WatcherV;

    open spec fn view(&self) -> WatcherV {
        WatcherV {
            id: self.id,
            name: self.name@,
            buffered: self.buffered,
            position: self.position,
            state: self.state,
            queue: self.queue.deep_view(),
        }
    }
}

impl DeepView for Watcher {
    type V = WatcherV;

    open spec fn deep_view(&self) -> WatcherV {
        self.view()
    }
}

impl Watcher {
    /// A fresh watcher: default telemetry (paused at the zero code, nothing
    /// buffered) and an empty outbound queue.
    pub fn new(name: String, id: u32) -> (w: Watcher)
        ensures
            w@ == (WatcherV {
                id,
                name: name@,
                buffered: 0,
                position: 0,
                state: RoomState::Paused,
                queue: Seq::<ToBrowserV>::empty(),
            }),
    {
        let w = Watcher {
            name,
            id,
            buffered: 0,
            position: 0,
            state: RoomState::Paused,
            queue: Vec::new(),
        };
        proof {
            assert(w.queue.deep_view() =~= Seq::<ToBrowserV>::empty());
        }
        w
    }

    /// This watcher's projection into a snapshot.
    pub fn info(&self) -> (r: WatcherInfo)
        ensures
            r@ == winfo_of(self@),
    {
        WatcherInfo {
            id: self.id,
            name: self.name.clone(),
            buffered: self.buffered,
            position: self.position,
            state: self.state,
        }
    }
}

/// One named watch session: its immutable identity, the ordered watcher
/// collection, and the monotone id counter seeded at 1.
pub struct Room {
    pub name: String,
    pub url: String,
    pub state: RoomState,
    pub watchers: Vec<Watcher>,
    pub next_id: u32,
}

impl View for Room {
    type V = RoomV;

    open spec fn view(&self) -> RoomV {
        RoomV {
            name: self.name@,
            url: self.url@,
            state: self.state,
            watchers: self.watchers.deep_view(),
            next_id: self.next_id,
        }
    }
}

impl Room {
    /// A fresh room: no watchers, id counter at 1, playback state at its
    /// permanent default.
    pub fn new(name: String, url: String) -> (r: Room)
        ensures
            r@ == (RoomV {
                name: name@,
                url: url@,
                state: RoomState::Paused,
                watchers: Seq::<WatcherV>::empty(),
                next_id: 1,
            }),
            r@.wf(),
    {
        let r = Room { name, url, state: RoomState::Paused, watchers: Vec::new(), next_id: 1 };
        proof {
            assert(r.watchers.deep_view() =~= Seq::<WatcherV>::empty());
        }
        r
    }

    /// Compute a fresh snapshot of the room: name, URL and the projected
    /// watcher list in registry order.
    #[verifier::loop_isolation(false)]
    pub fn get_info(&self) -> (info: RoomInfo)
        ensures
            info@ == info_of(self@),
    {
        let mut watchers: Vec<WatcherInfo> = Vec::new();
        let mut i: usize = 0;
        while i < self.watchers.len()
            invariant
                i <= self.watchers@.len(),
                watchers@.len() == i,
                forall|k: int| 0 <= k < i ==> watchers@[k]@ == winfo_of(self.watchers@[k]@),
            decreases self.watchers@.len() - i,
        {
            watchers.push(self.watchers[i].info());
            i += 1;
        }
        proof {
            assert(watchers.deep_view() =~= info_of(self@).watchers);
        }
        RoomInfo {
            name: self.name.clone(),
            url: self.url.clone(),
            position: 0,
            state: self.state,
            watchers,
        }
    }

    /// Fan one outbound message out: push a copy of it onto every current
    /// watcher's queue.  Membership, telemetry and the id counter are
    /// untouched.
    #[verifier::loop_isolation(false)]
    pub fn broadcast(&mut self, msg: &ToBrowser)
        ensures
            final(self)@ == (RoomV {
                watchers: push_all(old(self)@.watchers, msg@),
                ..old(self)@
            }),
    {
        let ghost orig = old(self)@.watchers;
        let mut i: usize = 0;
        while i < self.watchers.len()
            invariant
                i <= self.watchers@.len(),
                self.watchers@.len() == orig.len(),
                self.name@ == old(self).name@,
                self.url@ == old(self).url@,
                self.state == old(self).state,
                self.next_id == old(self).next_id,
                forall|k: int|
                    0 <= k < i ==> self.watchers@[k]@ == (WatcherV {
                        queue: orig[k].queue.push(msg@),
                        ..orig[k]
                    }),
                forall|k: int| i <= k < orig.len() ==> self.watchers@[k]@ == orig[k],
            decreases self.watchers@.len() - i,
        {
            let copy = msg.clone();
            let ghost before = self.watchers@[i as int]@;
            self.watchers[i].queue.push(copy);
            proof {
                assert(self.watchers@[i as int]@.queue =~= before.queue.push(msg@));
            }
            i += 1;
        }
        proof {
            assert(self@.watchers =~= push_all(orig, msg@));
        }
    }

    /// Overwrite the telemetry of the watcher carrying `id` in place; a
    /// no-op when the id is unknown (the watcher may already have left —
    /// a benign race, not an error).
    #[verifier::loop_isolation(false)]
    pub fn update_status(&mut self, id: u32, position: u64, buffered: u64, state: RoomState)
        requires
            old(self)@.wf(),
        ensures
            final(self)@ == (RoomV {
                watchers: apply_status(old(self)@.watchers, id, position, buffered, state),
                ..old(self)@
            }),
            final(self)@.wf(),
    {
        let ghost orig = old(self)@.watchers;
        let mut i: usize = 0;
        while i < self.watchers.len()
            invariant
                i <= self.watchers@.len(),
                *self == *old(self),
                forall|k: int| 0 <= k < i ==> orig[k].id != id,
            decreases self.watchers@.len() - i,
        {
            if self.watchers[i].id == id {
                self.watchers[i].position = position;
                self.watchers[i].buffered = buffered;
                self.watchers[i].state = state;
                proof {
                    assert(orig[i as int].id == id);
                    assert forall|k: int|
                        0 <= k < orig.len() && k != i as int implies orig[k].id != id by {
                        if k < i as int {
                            assert(orig[k].id < orig[i as int].id);
                        } else {
                            assert(orig[i as int].id < orig[k].id);
                        }
                    }
                    assert(self@.watchers =~= apply_status(orig, id, position, buffered, state));
                }
                return;
            }
            i += 1;
        }
        proof {
            assert(self@.watchers =~= apply_status(orig, id, position, buffered, state));
        }
    }
}

/// Relies on emojis::iter: it walks the crate's built-in emoji table,
/// which holds at least one entry, and on Emoji::as_str, which yields
/// each entry's string.
#[verifier::external_body]
fn emoji_pool() -> (pool: Vec<String>)
    ensures
        pool@.len() > 0,
{
    emojis::iter().map(|e| e.as_str().to_string()).collect()
}

/// Relies on rand::random_range: a value drawn from the given range,
/// which panics only when the range is empty.
#[verifier::external_body]
fn random_below(n: usize) -> (r: usize)
    requires
        n > 0,
    ensures
        r < n,
{
    rand::random_range(0..n)
}

/// Join a visual marker and a base name into one display name:
/// `"<marker> <base>"`.
pub fn decorate_name(marker: &str, base: &str) -> (r: String)
    ensures
        r@ == marker@ + seq![' '] + base@,
        decorated(r@, base@),
{
    let mut s = marker.to_owned();
    s.append(" ");
    s.append(base);
    proof {
        reveal_strlit(" ");
        assert(" "@ =~= seq![' ']);
        assert(s@ =~= marker@ + seq![' '] + base@);
        assert(s@.subrange(s@.len() - base@.len(), s@.len() as int) =~= base@);
    }
    s
}

impl Room {
    /// Register a new watcher under the exact display name given: assign
    /// the next id, append the watcher with default telemetry and an empty
    /// queue, and hand back the id together with the `Join` event that the
    /// caller must feed to the room actor.
    pub fn add_watcher_named(&mut self, name: String) -> (r: (u32, FromBrowser))
        requires
            old(self)@.wf(),
            old(self)@.next_id < u32::MAX,
        ensures
            final(self)@ == joined(old(self)@, name@),
            final(self)@.wf(),
            r.0 == old(self)@.next_id,
            r.1@ == (FromBrowserV::Join { name: name@ }),
    {
        let id = self.next_id;
        self.next_id = self.next_id + 1;
        let ev = FromBrowser::Join { name: name.clone() };
        let w = Watcher::new(name, id);
        self.watchers.push(w);
        proof {
            assert(self@.watchers =~= old(self)@.watchers.push(
                WatcherV {
                    id,
                    name: w.name@,
                    buffered: 0,
                    position: 0,
                    state: RoomState::Paused,
                    queue: Seq::<ToBrowserV>::empty(),
                },
            ));
        }
        (id, ev)
    }

    /// Register a new watcher: decorate the caller's display name with a
    /// randomly chosen marker from the emoji table, then register it.  The
    /// new watcher's name is the decorated one; it also travels in the
    /// returned `Join` event.
    pub fn add_watcher(&mut self, name: String) -> (r: (u32, FromBrowser))
        requires
            old(self)@.wf(),
            old(self)@.next_id < u32::MAX,
        ensures
            final(self)@.wf(),
            final(self)@.name == old(self)@.name,
            final(self)@.url == old(self)@.url,
            final(self)@.state == old(self)@.state,
            final(self)@.next_id == old(self)@.next_id + 1,
            r.0 == old(self)@.next_id,
            final(self)@.watchers.len() == old(self)@.watchers.len() + 1,
            forall|k: int|
                0 <= k < old(self)@.watchers.len() ==> final(self)@.watchers[k] == old(
                    self,
                )@.watchers[k],
            final(self)@.watchers.last() == (WatcherV {
                id: old(self)@.next_id,
                name: final(self)@.watchers.last().name,
                buffered: 0,
                position: 0,
                state: RoomState::Paused,
                queue: Seq::<ToBrowserV>::empty(),
            }),
            decorated(final(self)@.watchers.last().name, name@),
            r.1@ == (FromBrowserV::Join { name: final(self)@.watchers.last().name }),
    {
        let pool = emoji_pool();
        let idx = random_below(pool.len());
        let full = decorate_name(pool[idx].as_str(), name.as_str());
        self.add_watcher_named(full)
    }

    /// Deregister the watcher carrying `id`: take it out of the registry
    /// and hand back the `Leave` event that the caller must feed to the
    /// room actor.  A no-op returning `None` when the id is unknown, so a
    /// duplicate disconnect is harmless.
    #[verifier::loop_isolation(false)]
    pub fn remove_watcher(&mut self, id: u32) -> (r: Option<FromBrowser>)
        requires
            old(self)@.wf(),
        ensures
            final(self)@ == (RoomV { watchers: remove_id(old(self)@.watchers, id), ..old(self)@ }),
            final(self)@.wf(),
            r.is_some() <==> has_id(old(self)@.watchers, id),
            r matches Some(ev) ==> ev@ == (FromBrowserV::Leave { id }),
    {
        let ghost orig = old(self)@.watchers;
        let mut i: usize = 0;
        while i < self.watchers.len()
            invariant
                i <= orig.len(),
                *self == *old(self),
                forall|k: int| 0 <= k < i ==> orig[k].id != id,
            decreases orig.len() - i,
        {
            if self.watchers[i].id == id {
                proof {
                    assert(orig[i as int].id == id);
                }
                self.watchers.remove(i);
                proof {
                    lemma_idx_of(orig, id);
                    assert(has_id(orig, id));
                    assert(idx_of(orig, id) == i);
                    assert(self@.watchers =~= remove_id(orig, id));
                }
                return Some(FromBrowser::Leave { id });
            }
            i += 1;
        }
        proof {
            assert(!has_id(orig, id));
        }
        None
    }

    /// Hand out, and clear, the pending outbound queue of the watcher
    /// carrying `id`: the caller delivers the returned messages to that
    /// watcher's connection.  Empty when the id is unknown.
    #[verifier::loop_isolation(false)]
    pub fn take_outbound(&mut self, id: u32) -> (msgs: Vec<ToBrowser>)
        requires
            old(self)@.wf(),
        ensures
            final(self)@ == (RoomV { watchers: clear_queue(old(self)@.watchers, id), ..old(self)@ }),
            final(self)@.wf(),
            msgs.deep_view() == queue_of(old(self)@.watchers, id),
    {
        let ghost orig = old(self)@.watchers;
        let mut i: usize = 0;
        while i < self.watchers.len()
            invariant
                i <= orig.len(),
                *self == *old(self),
                forall|k: int| 0 <= k < i ==> orig[k].id != id,
            decreases orig.len() - i,
        {
            if self.watchers[i].id == id {
                proof {
                    assert(orig[i as int].id == id);
                }
                let msgs = self.watchers[i].queue.split_off(0);
                proof {
                    lemma_idx_of(orig, id);
                    assert(has_id(orig, id));
                    assert(idx_of(orig, id) == i);
                    assert forall|k: int|
                        0 <= k < orig.len() && k != i as int implies orig[k].id != id by {
                        if k < i as int {
                            assert(orig[k].id < orig[i as int].id);
                        } else {
                            assert(orig[i as int].id < orig[k].id);
                        }
                    }
                    assert(self.watchers@[i as int]@.queue =~= Seq::<ToBrowserV>::empty());
                    assert(self@.watchers =~= clear_queue(orig, id));
                    assert(msgs.deep_view() =~= queue_of(orig, id));
                }
                return msgs;
            }
            i += 1;
        }
        proof {
            assert(!has_id(orig, id));
            assert(self@.watchers =~= clear_queue(orig, id));
        }
        Vec::new()
    }

    /// Decide well-formedness at run time: ids strictly increasing along
    /// the registry and below the counter.  Unverified callers can use
    /// this to test the precondition of the mutating operations.
    #[verifier::loop_isolation(false)]
    pub fn wf_check(&self) -> (b: bool)
        ensures
            b == self@.wf(),
    {
        let mut i: usize = 0;
        while i < self.watchers.len()
            invariant
                i <= self.watchers@.len(),
                forall|k: int, l: int|
                    0 <= k < l < i ==> self@.watchers[k].id < self@.watchers[l].id,
                forall|k: int| 0 <= k < i ==> self@.watchers[k].id < self@.next_id,
            decreases self.watchers@.len() - i,
        {
            if self.watchers[i].id >= self.next_id {
                proof {
                    assert(self@.watchers[i as int].id >= self@.next_id);
                }
                return false;
            }
            if i > 0 && self.watchers[i - 1].id >= self.watchers[i].id {
                proof {
                    assert(self@.watchers[i as int - 1].id >= self@.watchers[i as int].id);
                }
                return false;
            }
            proof {
                assert forall|k: int, l: int|
                    0 <= k < l < i + 1 implies self@.watchers[k].id < self@.watchers[l].id by {
                    if l == i as int && k < l - 1 {
                        assert(self@.watchers[k].id < self@.watchers[l - 1].id);
                    }
                }
            }
            i += 1;
        }
        true
    }

    /// One turn of the room actor on one dequeued inbound event: apply its
    /// registry effect, then fan the resulting outbound message out to
    /// every current watcher's queue.  The message is also returned, so
    /// the caller can observe what was broadcast.
    pub fn handle_event(&mut self, ev: FromBrowser) -> (msg: ToBrowser)
        requires
            old(self)@.wf(),
            event_ok(ev@),
        ensures
            final(self)@ == old(self)@.step(ev@),
            final(self)@.wf(),
            msg@ == old(self)@.response(ev@),
    {
        let msg = match ev {
            FromBrowser::Join { .. } => ToBrowser::Metadata(self.get_info()),
            FromBrowser::Leave { .. } => ToBrowser::Metadata(self.get_info()),
            FromBrowser::Play { id, request_id, time } => ToBrowser::Play {
                id: id.unwrap(),
                request_id,
                time,
            },
            FromBrowser::Pause { id, request_id, time } => ToBrowser::Pause {
                id: id.unwrap(),
                request_id,
                time,
            },
            FromBrowser::Seek { id, request_id, time } => ToBrowser::Seek {
                id: id.unwrap(),
                request_id,
                time,
            },
            FromBrowser::Status { id, position, buffered, state } => {
                self.update_status(id.unwrap(), position, buffered, state);
                ToBrowser::Metadata(self.get_info())
            },
        };
        self.broadcast(&msg);
        proof {
            assert forall|k: int|
                0 <= k < self@.watchers.len() implies self@.watchers[k].id == old(
                self,
            )@.watchers[k].id by {}
            assert(self@ == old(self)@.step(ev@));
        }
        msg
    }
}

} // verus!
