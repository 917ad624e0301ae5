//! The event/command/response protocol that every panel speaks.
//!
//! One keystroke becomes one [`Event`]; the focused panel consumes it and
//! produces at most one [`Response`], which the router interprets in the same
//! iteration.

use vstd::prelude::*;
use crate::song::Song;
use crate::songdb::Query;

verus! {

/// One keystroke, translated. Immutable; produced once per input poll.
#[derive(Clone, Copy)]
pub enum Event {
    Char(char),
    Up,
    Down,
    Left,
    Right,
    Accept,
    Back,
    Nothing,
}

/// What a panel asks the router to do across panel boundaries.
pub enum Response {
    /// Append this song to the playback queue.
    QueueSong(Song),
    /// Hand this song to the external player.
    PlaySong(Song),
    /// Replace the song list with the result of this field query.
    Query(Query),
    /// Replace the song list with the result of this free-text query.
    QueryAny(String),
    /// Tell the external player to stop.
    StopSong,
}

} // verus!
