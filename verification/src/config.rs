//! The configuration.
use vstd::prelude::*;

pub mod keys;
pub mod laws;
pub mod osc;
pub mod player;
pub mod sections;
pub mod settings;
pub mod songs;

verus! {

/// Where the song definitions are: the configured path, taken from the directory
/// that the player's configuration file lies in.
pub fn get_songs_path(player_path: &str, songs: String) -> (path: String)
    ensures
        path@ == crate::path::resolved(player_path@, songs@),
{
    crate::path::resolve(player_path, songs.as_str())
}

} // verus!
