//! The wire vocabulary exchanged between a viewer connection and a room.
//!
//! Numeric playback values (`time`, `position`, `buffered`) are carried as
//! opaque 64-bit codes: the room never interprets them, it only relays them,
//! so the transport layer is free to encode its wire numbers into them and
//! decode them back unchanged.

use vstd::prelude::*;

verus! {

/// Playback state of a player: exactly `Playing` or `Paused`.
#[derive(Debug, Copy, Clone, PartialEq, Eq, Structural)]
pub enum RoomState {
    Playing,
    Paused,
}

/// One watcher as projected into a room snapshot.
#[derive(Debug, PartialEq, Eq)]
pub struct WatcherInfo {
    pub id: u32,
    pub name: String,
    pub buffered: u64,
    pub position: u64,
    pub state: RoomState,
}

/// A full snapshot of a room: name, media URL and the projected watcher
/// list, recomputed on demand and never cached across events.
#[derive(Debug, PartialEq, Eq)]
pub struct RoomInfo {
    pub name: String,
    pub url: String,
    pub position: u64,
    pub state: RoomState,
    pub watchers: Vec<WatcherInfo>,
}

/// Outbound messages: room → viewer connection.
#[derive(Debug, PartialEq, Eq)]
pub enum ToBrowser {
    /// Sent once, directly after registration: the watcher's assigned id.
    Id(u32),
    /// Broadcast whenever membership or any watcher's telemetry changes.
    Metadata(RoomInfo),
    /// Echo of an inbound `Play`; `id` names the originator.
    Play { id: u32, request_id: u32, time: u64 },
    /// Echo of an inbound `Pause`; `id` names the originator.
    Pause { id: u32, request_id: u32, time: u64 },
    /// Echo of an inbound `Seek`; `id` names the originator.
    Seek { id: u32, request_id: u32, time: u64 },
}

/// Inbound events: viewer connection → room actor.
///
/// For `Play`, `Pause`, `Seek` and `Status` the transport layer always
/// overwrites `id` with the connection's assigned watcher id before handing
/// the event to the room; a client-supplied id is never trusted.
#[derive(Debug, PartialEq, Eq)]
pub enum FromBrowser {
    /// Enqueued by the registry on successful registration.
    Join { name: String },
    /// Enqueued by the registry on disconnect.
    Leave { id: u32 },
    Play { id: Option<u32>, request_id: u32, time: u64 },
    Pause { id: Option<u32>, request_id: u32, time: u64 },
    Seek { id: Option<u32>, request_id: u32, time: u64 },
    Status { id: Option<u32>, position: u64, buffered: u64, state: RoomState },
}

/// Mathematical model of a `WatcherInfo`.
pub ghost struct WatcherInfoV {
    pub id: u32,
    pub name: Seq<char>,
    pub buffered: u64,
    pub position: u64,
    pub state: RoomState,
}

/// Mathematical model of a `RoomInfo`.
pub ghost struct RoomInfoV {
    pub name: Seq<char>,
    pub url: Seq<char>,
    pub position: u64,
    pub state: RoomState,
    pub watchers: Seq<WatcherInfoV>,
}

/// Mathematical model of a `ToBrowser` message.
pub ghost enum ToBrowserV {
    Id(u32),
    Metadata(RoomInfoV),
    Play { id: u32, request_id: u32, time: u64 },
    Pause { id: u32, request_id: u32, time: u64 },
    Seek { id: u32, request_id: u32, time: u64 },
}

/// Mathematical model of a `FromBrowser` event.
pub ghost enum FromBrowserV {
    Join { name: Seq<char> },
    Leave { id: u32 },
    Play { id: Option<u32>, request_id: u32, time: u64 },
    Pause { id: Option<u32>, request_id: u32, time: u64 },
    Seek { id: Option<u32>, request_id: u32, time: u64 },
    Status { id: Option<u32>, position: u64, buffered: u64, state: RoomState },
}

/// An inbound event the transport layer is allowed to hand to the room
/// actor: control and status events must carry the connection's resolved
/// id.
pub open spec fn event_ok(ev: FromBrowserV) -> bool {
    match ev {
        FromBrowserV::Join { .. } => true,
        FromBrowserV::Leave { .. } => true,
        FromBrowserV::Play { id, .. } => id.is_some(),
        FromBrowserV::Pause { id, .. } => id.is_some(),
        FromBrowserV::Seek { id, .. } => id.is_some(),
        FromBrowserV::Status { id, .. } => id.is_some(),
    }
}

/// `ev` with its sender field forced to the connection's assigned id:
/// `Join` and `Leave` are untouched, every other event carries `Some(id)`
/// whatever the wire said.
pub open spec fn resolved(ev: FromBrowserV, id: u32) -> FromBrowserV {
    match ev {
        FromBrowserV::Join { .. } => ev,
        FromBrowserV::Leave { .. } => ev,
        FromBrowserV::Play { request_id, time, .. } => FromBrowserV::Play {
            id: Some(id),
            request_id,
            time,
        },
        FromBrowserV::Pause { request_id, time, .. } => FromBrowserV::Pause {
            id: Some(id),
            request_id,
            time,
        },
        FromBrowserV::Seek { request_id, time, .. } => FromBrowserV::Seek {
            id: Some(id),
            request_id,
            time,
        },
        FromBrowserV::Status { position, buffered, state, .. } => FromBrowserV::Status {
            id: Some(id),
            position,
            buffered,
            state,
        },
    }
}

/// Overwrite the id of a decoded inbound event with the connection's
/// assigned watcher id: an id supplied on the wire is never trusted.
pub fn resolve_id(ev: FromBrowser, id: u32) -> (r: FromBrowser)
    ensures
        r@ == resolved(ev@, id),
        event_ok(r@),
{
    match ev {
        FromBrowser::Play { request_id, time, .. } => FromBrowser::Play {
            id: Some(id),
            request_id,
            time,
        },
        FromBrowser::Pause { request_id, time, .. } => FromBrowser::Pause {
            id: Some(id),
            request_id,
            time,
        },
        FromBrowser::Seek { request_id, time, .. } => FromBrowser::Seek {
            id: Some(id),
            request_id,
            time,
        },
        FromBrowser::Status { position, buffered, state, .. } => FromBrowser::Status {
            id: Some(id),
            position,
            buffered,
            state,
        },
        other => other,
    }
}

impl View for WatcherInfo {
    type V = WatcherInfoV;

    open spec fn view(&self) -> WatcherInfoV {
        WatcherInfoV {
            id: self.id,
            name: self.name@,
            buffered: self.buffered,
            position: self.position,
            state: self.state,
        }
    }
}

impl DeepView for WatcherInfo {
    type V = WatcherInfoV;

    open spec fn deep_view(&self) -> WatcherInfoV {
        self.view()
    }
}

impl View for RoomInfo {
    type V = RoomInfoV;

    open spec fn view(&self) -> RoomInfoV {
        RoomInfoV {
            name: self.name@,
            url: self.url@,
            position: self.position,
            state: self.state,
            watchers: self.watchers.deep_view(),
        }
    }
}

impl DeepView for RoomInfo {
    type V = RoomInfoV;

    open spec fn deep_view(&self) -> RoomInfoV {
        self.view()
    }
}

impl View for ToBrowser {
    type V = ToBrowserV;

    open spec fn view(&self) -> ToBrowserV {
        match self {
            ToBrowser::Id(id) => ToBrowserV::Id(*id),
            ToBrowser::Metadata(info) => ToBrowserV::Metadata(info@),
            ToBrowser::Play { id, request_id, time } => ToBrowserV::Play {
                id: *id,
                request_id: *request_id,
                time: *time,
            },
            ToBrowser::Pause { id, request_id, time } => ToBrowserV::Pause {
                id: *id,
                request_id: *request_id,
                time: *time,
            },
            ToBrowser::Seek { id, request_id, time } => ToBrowserV::Seek {
                id: *id,
                request_id: *request_id,
                time: *time,
            },
        }
    }
}

impl DeepView for ToBrowser {
    type V = ToBrowserV;

    open spec fn deep_view(&self) -> ToBrowserV {
        self.view()
    }
}

impl View for FromBrowser {
    type V = FromBrowserV;

    open spec fn view(&self) -> FromBrowserV {
        match self {
            FromBrowser::Join { name } => FromBrowserV::Join { name: name@ },
            FromBrowser::Leave { id } => FromBrowserV::Leave { id: *id },
            FromBrowser::Play { id, request_id, time } => FromBrowserV::Play {
                id: *id,
                request_id: *request_id,
                time: *time,
            },
            FromBrowser::Pause { id, request_id, time } => FromBrowserV::Pause {
                id: *id,
                request_id: *request_id,
                time: *time,
            },
            FromBrowser::Seek { id, request_id, time } => FromBrowserV::Seek {
                id: *id,
                request_id: *request_id,
                time: *time,
            },
            FromBrowser::Status { id, position, buffered, state } => FromBrowserV::Status {
                id: *id,
                position: *position,
                buffered: *buffered,
                state: *state,
            },
        }
    }
}

impl DeepView for FromBrowser {
    type V = FromBrowserV;

    open spec fn deep_view(&self) -> FromBrowserV {
        self.view()
    }
}

impl Clone for WatcherInfo {
    /// A clone keeps the whole projection.
    fn clone(&self) -> (res: Self)
        ensures
            res@ == self@,
    {
        WatcherInfo {
            id: self.id,
            name: self.name.clone(),
            buffered: self.buffered,
            position: self.position,
            state: self.state,
        }
    }
}

impl Clone for RoomInfo {
    /// A clone models the same snapshot.
    fn clone(&self) -> (res: Self)
        ensures
            res@ == self@,
    {
        let mut watchers: Vec<WatcherInfo> = Vec::new();
        let mut i: usize = 0;
        while i < self.watchers.len()
            invariant
                i <= self.watchers@.len(),
                watchers@.len() == i,
                forall|k: int| 0 <= k < i ==> watchers@[k]@ == self.watchers@[k]@,
            decreases self.watchers@.len() - i,
        {
            watchers.push(self.watchers[i].clone());
            i += 1;
        }
        proof {
            assert(watchers.deep_view() =~= self.watchers.deep_view());
        }
        RoomInfo {
            name: self.name.clone(),
            url: self.url.clone(),
            position: self.position,
            state: self.state,
            watchers,
        }
    }
}

impl Clone for ToBrowser {
    /// A clone models the same message: broadcast delivers one such copy to
    /// every watcher.
    fn clone(&self) -> (res: Self)
        ensures
            res@ == self@,
    {
        match self {
            ToBrowser::Id(id) => ToBrowser::Id(*id),
            ToBrowser::Metadata(info) => ToBrowser::Metadata(info.clone()),
            ToBrowser::Play { id, request_id, time } => ToBrowser::Play {
                id: *id,
                request_id: *request_id,
                time: *time,
            },
            ToBrowser::Pause { id, request_id, time } => ToBrowser::Pause {
                id: *id,
                request_id: *request_id,
                time: *time,
            },
            ToBrowser::Seek { id, request_id, time } => ToBrowser::Seek {
                id: *id,
                request_id: *request_id,
                time: *time,
            },
        }
    }
}

} // verus!
