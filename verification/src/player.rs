//! What the player reports.
use vstd::prelude::*;

verus! {

/// A report of the player about what it did.
pub enum PlayerMessage {
    /// A song was selected.
    Select(String),
    /// A song started to play.
    Play(String),
    /// The player went back by one song.
    Prev,
    /// The player went on by one song.
    Next,
    /// The player stopped.
    Stop,
    /// The titles of the playlist that the player now follows.
    Playlist(Vec<String>),
}

/// A report, with its texts as sequences of characters.
pub enum PlayerMessageView {
    Select(Seq<char>),
    Play(Seq<char>),
    Prev,
    Next,
    Stop,
    Playlist(Seq<Seq<char>>),
}

impl View for PlayerMessage {
    type V = PlayerMessageView;

    open spec fn view(&self) -> PlayerMessageView {
        match self {
            PlayerMessage::Select(song) => PlayerMessageView::Select(song@),
            PlayerMessage::Play(song) => PlayerMessageView::Play(song@),
            PlayerMessage::Prev => PlayerMessageView::Prev,
            PlayerMessage::Next => PlayerMessageView::Next,
            PlayerMessage::Stop => PlayerMessageView::Stop,
            PlayerMessage::Playlist(songs) => PlayerMessageView::Playlist(
                crate::text::texts(songs@),
            ),
        }
    }
}

/// A report says of songs what their titles say.
pub proof fn law_reports(song: String, songs: Vec<String>)
    ensures
        PlayerMessage::Select(song)@ == PlayerMessageView::Select(song@),
        PlayerMessage::Play(song)@ == PlayerMessageView::Play(song@),
        PlayerMessage::Prev@ == PlayerMessageView::Prev,
        PlayerMessage::Next@ == PlayerMessageView::Next,
        PlayerMessage::Stop@ == PlayerMessageView::Stop,
        PlayerMessage::Playlist(songs)@ == PlayerMessageView::Playlist(
            Seq::new(songs@.len(), |i: int| songs@[i]@),
        ),
{
    assert(crate::text::texts(songs@) =~= Seq::new(songs@.len(), |i: int| songs@[i]@));
}

} // verus!
