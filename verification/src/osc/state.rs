//! What the OSC endpoint knows of the player, and what it tells its clients.
use vstd::prelude::*;

use crate::osc::packet::{OscArg, OscArgView, OscMessage, OscPacket, OscPacketView};
use crate::player::{PlayerMessage, PlayerMessageView};
use crate::text::copy_texts;

verus! {

/// What a client may ask for.
#[derive(Clone, Copy, Debug, PartialEq, Eq, Structural)]
pub enum StateRequest {
    Playlist,
    CurrentSong,
    IsPlaying,
}

/// What the endpoint knows of the player.
pub struct OscPlayerState {
    pub playlist: Vec<String>,
    pub current_song: Option<String>,
    pub is_playing: bool,
}

/// What the endpoint knows of the player, with the titles as sequences.
#[verifier::ext_equal]
pub struct OscPlayerStateView {
    pub playlist: Seq<Seq<char>>,
    pub current_song: Option<Seq<char>>,
    pub is_playing: bool,
}

impl View for OscPlayerState {
    type V = OscPlayerStateView;

    open spec fn view(&self) -> OscPlayerStateView {
        OscPlayerStateView {
            playlist: crate::text::texts(self.playlist@),
            current_song: crate::text::optional_text(self.current_song),
            is_playing: self.is_playing,
        }
    }
}

/// What is known before the player has reported anything.
pub open spec fn unknown_player() -> OscPlayerStateView {
    OscPlayerStateView { playlist: seq![], current_song: None, is_playing: false }
}

/// The song that follows the first one of that title in the playlist. No song
/// counts as the empty title.
pub open spec fn song_after(playlist: Seq<Seq<char>>, current: Option<Seq<char>>) -> Option<
    Seq<char>,
> {
    let title = match current {
        Some(title) => title,
        None => seq![],
    };
    match playlist.index_of_first(title) {
        Some(i) if i + 1 < playlist.len() => Some(playlist[i + 1]),
        _ => None,
    }
}

/// What is known after a report of the player.
pub open spec fn state_after(
    state: OscPlayerStateView,
    message: PlayerMessageView,
) -> OscPlayerStateView {
    match message {
        PlayerMessageView::Select(song) => OscPlayerStateView {
            current_song: Some(song),
            ..state
        },
        PlayerMessageView::Play(song) => OscPlayerStateView { current_song: Some(song), ..state },
        PlayerMessageView::Prev => state,
        PlayerMessageView::Next => OscPlayerStateView {
            current_song: song_after(state.playlist, state.current_song),
            is_playing: false,
            ..state
        },
        PlayerMessageView::Stop => state,
        PlayerMessageView::Playlist(playlist) => OscPlayerStateView { playlist, ..state },
    }
}

/// What is known after a series of reports.
pub open spec fn state_after_all(
    state: OscPlayerStateView,
    messages: Seq<PlayerMessageView>,
) -> OscPlayerStateView
    decreases messages.len(),
{
    if messages.len() == 0 {
        state
    } else {
        state_after(state_after_all(state, messages.drop_last()), messages.last())
    }
}

/// The title that stands for the current song: a dash if there is none.
pub open spec fn title_of(current: Option<Seq<char>>) -> Seq<char> {
    match current {
        Some(title) => title,
        None => "-"@,
    }
}

/// The answer to a client that asks for a part of the state.
pub open spec fn answer(request: StateRequest, state: OscPlayerStateView) -> OscPacketView {
    match request {
        StateRequest::Playlist => crate::osc::packet::text_message("/playlist"@, state.playlist),
        StateRequest::CurrentSong => crate::osc::packet::text_message(
            "/song"@,
            seq![title_of(state.current_song)],
        ),
        StateRequest::IsPlaying => crate::osc::packet::bool_message(
            "/is_playing"@,
            state.is_playing,
        ),
    }
}

/// What is told of a report of the player, once the state is up to date.
pub open spec fn announcement(
    message: PlayerMessageView,
    state: OscPlayerStateView,
) -> OscPacketView {
    match message {
        PlayerMessageView::Select(song) => crate::osc::packet::text_message(
            "/song/select"@,
            seq![song],
        ),
        PlayerMessageView::Play(song) => crate::osc::packet::text_message(
            "/song/play"@,
            seq![song],
        ),
        PlayerMessageView::Prev | PlayerMessageView::Next => crate::osc::packet::text_message(
            "/song/select"@,
            seq![title_of(state.current_song)],
        ),
        PlayerMessageView::Stop => crate::osc::packet::text_message("/stop"@, seq![]),
        PlayerMessageView::Playlist(playlist) => crate::osc::packet::text_message(
            "/playlist"@,
            playlist,
        ),
    }
}

/// The position of the first title of the list that is `title`.
fn position(titles: &Vec<String>, title: &String) -> (found: Option<usize>)
    ensures
        match found {
            Some(i) => crate::text::texts(titles@).index_of_first(title@) == Some(i as int),
            None => crate::text::texts(titles@).index_of_first(title@) is None,
        },
        found matches Some(i) ==> i < titles@.len(),
{
    let ghost views = crate::text::texts(titles@);
    for i in 0..titles.len()
        invariant
            views == crate::text::texts(titles@),
            forall|j: int| 0 <= j < i ==> views[j] != title@,
    {
        if titles[i] == *title {
            proof {
                views.index_of_first_ensures(title@);
                assert(views[i as int] == title@);
            }
            return Some(i);
        }
    }
    proof {
        views.index_of_first_ensures(title@);
    }
    None
}

/// A message with text arguments.
fn message_of_texts(addr: &str, titles: &Vec<String>) -> (packet: OscPacket)
    ensures
        packet@ == crate::osc::packet::text_message(addr@, crate::text::texts(titles@)),
{
    let mut args: Vec<OscArg> = Vec::new();
    for i in 0..titles.len()
        invariant
            args@.len() == i,
            forall|j: int|
                0 <= j < i ==> (#[trigger] args@[j])@ == OscArgView::String(titles@[j]@),
    {
        args.push(OscArg::String(titles[i].clone()));
    }
    let packet = OscPacket::Message(OscMessage { addr: addr.to_owned(), args });
    assert(packet@ =~= crate::osc::packet::text_message(addr@, crate::text::texts(titles@)));
    packet
}

/// A message with one text argument.
fn message_of_text(addr: &str, text: String) -> (packet: OscPacket)
    ensures
        packet@ == crate::osc::packet::text_message(addr@, seq![text@]),
{
    let packet = OscPacket::Message(
        OscMessage { addr: addr.to_owned(), args: vec![OscArg::String(text)] },
    );
    assert(packet@ =~= crate::osc::packet::text_message(addr@, seq![text@]));
    packet
}

impl OscPlayerState {
    /// Nothing is known of the player yet.
    pub fn new() -> (state: OscPlayerState)
        ensures
            state@ == unknown_player(),
    {
        let state = OscPlayerState { playlist: Vec::new(), current_song: None, is_playing: false };
        assert(state@ =~= unknown_player());
        state
    }

    /// Takes a report of the player into account.
    pub fn set_state(&mut self, message: &PlayerMessage)
        ensures
            final(self)@ == state_after(old(self)@, message@),
    {
        match message {
            PlayerMessage::Select(song) => {
                self.current_song = Some(song.clone());
            },
            PlayerMessage::Play(song) => {
                self.current_song = Some(song.clone());
            },
            PlayerMessage::Prev => {},
            PlayerMessage::Next => {
                let title = match &self.current_song {
                    Some(title) => title.clone(),
                    None => String::new(),
                };
                assert(title@ == match self@.current_song {
                    Some(title) => title,
                    None => seq![],
                });
                self.is_playing = false;
                let count: usize = self.playlist.len();
                match position(&self.playlist, &title) {
                    Some(i) => {
                        if i + 1 < count {
                            self.current_song = Some(self.playlist[i + 1].clone());
                        } else {
                            self.current_song = None;
                        }
                    },
                    None => {
                        self.current_song = None;
                    },
                }
            },
            PlayerMessage::Stop => {},
            PlayerMessage::Playlist(playlist) => {
                self.playlist = copy_texts(playlist);
            },
        }
    }

    /// The title of the current song, or a dash.
    fn title(&self) -> (title: String)
        ensures
            title@ == title_of(self@.current_song),
    {
        match &self.current_song {
            Some(title) => title.clone(),
            None => "-".to_owned(),
        }
    }

    /// The answer to a client that asks for a part of the state.
    pub fn response_for_state_request(&self, request: StateRequest) -> (packet: OscPacket)
        ensures
            packet@ == answer(request, self@),
    {
        match request {
            StateRequest::Playlist => message_of_texts("/playlist", &self.playlist),
            StateRequest::CurrentSong => message_of_text("/song", self.title()),
            StateRequest::IsPlaying => {
                let packet = OscPacket::Message(
                    OscMessage {
                        addr: "/is_playing".to_owned(),
                        args: vec![OscArg::Bool(self.is_playing)],
                    },
                );
                assert(packet@ =~= crate::osc::packet::bool_message(
                    "/is_playing"@,
                    self.is_playing,
                ));
                packet
            },
        }
    }

    /// What is told of a report of the player, once it is taken into account.
    pub fn response_for_player_message(&self, message: PlayerMessage) -> (packet: OscPacket)
        ensures
            packet@ == announcement(message@, self@),
    {
        match message {
            PlayerMessage::Select(song) => message_of_text("/song/select", song),
            PlayerMessage::Play(song) => message_of_text("/song/play", song),
            PlayerMessage::Prev => message_of_text("/song/select", self.title()),
            PlayerMessage::Next => message_of_text("/song/select", self.title()),
            PlayerMessage::Stop => {
                let packet = OscPacket::Message(
                    OscMessage { addr: "/stop".to_owned(), args: Vec::new() },
                );
                assert(packet@ =~= crate::osc::packet::text_message("/stop"@, seq![]));
                packet
            },
            PlayerMessage::Playlist(playlist) => message_of_texts("/playlist", &playlist),
        }
    }
}

} // verus!
