//! The controllers: what a user may tell the player to do, and how.
use vstd::prelude::*;

pub mod keyboard;
pub mod laws;
pub mod osc;

verus! {

/// Something that the player is told to do.
#[derive(Clone, Copy, Debug, PartialEq, Eq, Structural)]
pub enum Event {
    /// Play the current song.
    Play,
    /// Go back by one song.
    Prev,
    /// Go on by one song.
    Next,
    /// Stop playing.
    Stop,
    /// Follow the list of all songs.
    AllSongs,
    /// Follow the playlist.
    Playlist,
}

} // verus!
