//! Core of a watch-together synchronization service.
//!
//! A room keeps a set of remote viewers' video players in lockstep by
//! relaying playback-control events (play/pause/seek) and periodic status
//! reports between them.  This crate holds the room subsystem: the message
//! protocol, the per-room watcher registry, and the sequential
//! event-processing step that gives each room a total order of events and
//! fans broadcasts out to every current watcher.  Transport (sockets, JSON
//! framing) lives outside the crate and hands the room plain values.

pub mod laws;
pub mod protocol;
pub mod room;
