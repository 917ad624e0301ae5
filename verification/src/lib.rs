//! Core of a terminal music library browser/player: the panel state machine
//! and selection/queue model.
//!
//! A keystroke becomes an [`command::Event`]; the router delivers it to the
//! focused panel (category navigator, song list, playback queue, or search
//! buffer); the panel mutates its own cursor and collection state and may
//! produce a [`command::Response`], which the router interprets into
//! cross-panel effects. Terminal rendering, audio playback, metadata probing
//! and persistent storage are external collaborators, consumed only at this
//! crate's boundary.

pub mod command;
pub mod navigator;
pub mod order;
pub mod router;
pub mod search;
pub mod song;
pub mod songlist;
pub mod songqueue;
pub mod songdb;

pub use song::Song;
