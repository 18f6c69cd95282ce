//! What is told to clients, word by word.
use vstd::prelude::*;

use crate::osc::packet::{OscArg, OscArgView, OscMessage, OscMessageView, OscPacket, OscPacketView};
use crate::osc::state::{OscPlayerState, OscPlayerStateView, StateRequest};
use crate::player::PlayerMessageView;

verus! {

/// A message of texts has as many arguments as there are texts, each the text in
/// its place; a message of a truth value has this value as its only argument.
pub proof fn law_arguments(addr: Seq<char>, texts: Seq<Seq<char>>, value: bool)
    ensures
        crate::osc::packet::text_message(addr, texts) matches OscPacketView::Message(message)
            && message.addr == addr && message.args.len() == texts.len() && forall|i: int|
            0 <= i < texts.len() ==> #[trigger] message.args[i] == OscArgView::String(texts[i]),
        crate::osc::packet::bool_message(addr, value) matches OscPacketView::Message(message)
            && message.addr == addr && message.args.len() == 1 && message.args[0]
            == OscArgView::Bool(value),
{
}

/// A packet says what its message says: its address and its arguments, in order.
pub proof fn law_packets(
    message: OscMessage,
    bundle: ::rosc::OscBundle,
    text: String,
    value: bool,
    other: ::rosc::OscType,
)
    ensures
        OscPacket::Message(message)@ matches OscPacketView::Message(view) && view.addr
            == message.addr@ && view.args.len() == message.args@.len() && forall|i: int|
            0 <= i < message.args@.len() ==> #[trigger] view.args[i] == message.args@[i]@,
        OscPacket::Bundle(bundle)@ == OscPacketView::Bundle(bundle),
        OscArg::String(text)@ == OscArgView::String(text@),
        OscArg::Bool(value)@ == OscArgView::Bool(value),
        OscArg::Other(other)@ == OscArgView::Other(other),
{
}

/// What is known is the playlist title by title, the song and whether it plays.
pub proof fn law_known_state(state: OscPlayerState)
    ensures
        state@.playlist.len() == state.playlist@.len(),
        forall|i: int|
            0 <= i < state.playlist@.len() ==> #[trigger] state@.playlist[i]
                == state.playlist@[i]@,
        match state.current_song {
            Some(song) => state@.current_song == Some(song@),
            None => state@.current_song is None,
        },
        state@.is_playing == state.is_playing,
        crate::osc::state::unknown_player().playlist.len() == 0,
        crate::osc::state::unknown_player().current_song is None,
        !crate::osc::state::unknown_player().is_playing,
{
}

/// A client that asks for the playlist is told every title in order, one that asks
/// for the song its title or a dash, and one that asks whether it plays just that.
pub proof fn law_answers(state: OscPlayerStateView)
    ensures
        crate::osc::state::answer(StateRequest::Playlist, state) == OscPacketView::Message(
            OscMessageView {
                addr: "/playlist"@,
                args: Seq::new(
                    state.playlist.len(),
                    |i: int| OscArgView::String(state.playlist[i]),
                ),
            },
        ),
        crate::osc::state::answer(StateRequest::CurrentSong, state) == OscPacketView::Message(
            OscMessageView {
                addr: "/song"@,
                args: seq![
                    OscArgView::String(
                        match state.current_song {
                            Some(title) => title,
                            None => "-"@,
                        },
                    ),
                ],
            },
        ),
        crate::osc::state::answer(StateRequest::IsPlaying, state) == OscPacketView::Message(
            OscMessageView {
                addr: "/is_playing"@,
                args: seq![OscArgView::Bool(state.is_playing)],
            },
        ),
{
    assert(crate::osc::state::answer(StateRequest::Playlist, state)->Message_0.args =~= Seq::new(
        state.playlist.len(),
        |i: int| OscArgView::String(state.playlist[i]),
    ));
    assert(crate::osc::state::answer(StateRequest::CurrentSong, state)->Message_0.args =~= seq![
        OscArgView::String(
            match state.current_song {
                Some(title) => title,
                None => "-"@,
            },
        ),
    ]);
}

/// A report of a song is told with its title, a report of a playlist with every
/// title in order, a step to another song with the song known then, and that the
/// player stopped with nothing more.
pub proof fn law_announcements(
    state: OscPlayerStateView,
    song: Seq<char>,
    playlist: Seq<Seq<char>>,
)
    ensures
        crate::osc::state::announcement(PlayerMessageView::Select(song), state)
            == OscPacketView::Message(
            OscMessageView { addr: "/song/select"@, args: seq![OscArgView::String(song)] },
        ),
        crate::osc::state::announcement(PlayerMessageView::Play(song), state)
            == OscPacketView::Message(
            OscMessageView { addr: "/song/play"@, args: seq![OscArgView::String(song)] },
        ),
        crate::osc::state::announcement(PlayerMessageView::Prev, state) == OscPacketView::Message(
            OscMessageView {
                addr: "/song/select"@,
                args: seq![
                    OscArgView::String(
                        match state.current_song {
                            Some(title) => title,
                            None => "-"@,
                        },
                    ),
                ],
            },
        ),
        crate::osc::state::announcement(PlayerMessageView::Next, state) == OscPacketView::Message(
            OscMessageView {
                addr: "/song/select"@,
                args: seq![
                    OscArgView::String(
                        match state.current_song {
                            Some(title) => title,
                            None => "-"@,
                        },
                    ),
                ],
            },
        ),
        crate::osc::state::announcement(PlayerMessageView::Stop, state) == OscPacketView::Message(
            OscMessageView { addr: "/stop"@, args: seq![] },
        ),
        crate::osc::state::announcement(PlayerMessageView::Playlist(playlist), state)
            == OscPacketView::Message(
            OscMessageView {
                addr: "/playlist"@,
                args: Seq::new(playlist.len(), |i: int| OscArgView::String(playlist[i])),
            },
        ),
{
    let title = match state.current_song {
        Some(title) => title,
        None => "-"@,
    };
    assert(crate::osc::state::announcement(
        PlayerMessageView::Select(song),
        state,
    )->Message_0.args =~= seq![OscArgView::String(song)]);
    assert(crate::osc::state::announcement(
        PlayerMessageView::Play(song),
        state,
    )->Message_0.args =~= seq![OscArgView::String(song)]);
    assert(crate::osc::state::announcement(PlayerMessageView::Prev, state)->Message_0.args
        =~= seq![OscArgView::String(title)]);
    assert(crate::osc::state::announcement(PlayerMessageView::Next, state)->Message_0.args
        =~= seq![OscArgView::String(title)]);
    assert(crate::osc::state::announcement(PlayerMessageView::Stop, state)->Message_0.args
        =~= seq![]);
    assert(crate::osc::state::announcement(
        PlayerMessageView::Playlist(playlist),
        state,
    )->Message_0.args =~= Seq::new(
        playlist.len(),
        |i: int| OscArgView::String(playlist[i]),
    ));
}

/// A report changes what it is about and nothing else.
pub proof fn law_what_reports_change(
    state: OscPlayerStateView,
    song: Seq<char>,
    playlist: Seq<Seq<char>>,
)
    ensures
        ({
            let after = crate::osc::state::state_after(state, PlayerMessageView::Select(song));
            &&& after.current_song == Some(song)
            &&& after.playlist == state.playlist
            &&& after.is_playing == state.is_playing
        }),
        ({
            let after = crate::osc::state::state_after(state, PlayerMessageView::Play(song));
            &&& after.current_song == Some(song)
            &&& after.playlist == state.playlist
            &&& after.is_playing == state.is_playing
        }),
        ({
            let after = crate::osc::state::state_after(
                state,
                PlayerMessageView::Playlist(playlist),
            );
            &&& after.playlist == playlist
            &&& after.current_song == state.current_song
            &&& after.is_playing == state.is_playing
        }),
        ({
            let after = crate::osc::state::state_after(state, PlayerMessageView::Next);
            &&& after.playlist == state.playlist
            &&& !after.is_playing
        }),
        crate::osc::state::state_after(state, PlayerMessageView::Prev) == state,
        crate::osc::state::state_after(state, PlayerMessageView::Stop) == state,
{
}

/// Going on leads to the song behind the first one of the current title, where no
/// song counts as the empty title; behind the last song there is none.
pub proof fn law_next_song(state: OscPlayerStateView, title: Seq<char>, position: int)
    requires
        state.current_song == Some(title) || (state.current_song is None && title.len() == 0),
        0 <= position < state.playlist.len(),
        state.playlist[position] == title,
        forall|i: int| 0 <= i < position ==> #[trigger] state.playlist[i] != title,
    ensures
        position + 1 < state.playlist.len() ==> crate::osc::state::state_after(
            state,
            PlayerMessageView::Next,
        ).current_song == Some(state.playlist[position + 1]),
        position + 1 == state.playlist.len() ==> crate::osc::state::state_after(
            state,
            PlayerMessageView::Next,
        ).current_song is None,
{
    assert(title.len() == 0 ==> title =~= seq![]);
    state.playlist.index_of_first_ensures(title);
    assert(state.playlist.contains(title));
    let found = state.playlist.index_of_first(title)->0;
    assert(found == position) by {
        if found < position {
            assert(state.playlist[found] != title);
        }
    }
}

/// Going on from a title that is not in the playlist leads to no song.
pub proof fn law_no_next_song(state: OscPlayerStateView, title: Seq<char>)
    requires
        state.current_song == Some(title) || (state.current_song is None && title.len() == 0),
        !state.playlist.contains(title),
    ensures
        crate::osc::state::state_after(state, PlayerMessageView::Next).current_song is None,
{
    assert(title.len() == 0 ==> title =~= seq![]);
    state.playlist.index_of_first_ensures(title);
}

/// A datagram is read as a packet if the codec reads it so and leaves nothing over.
/// Every message with an address that starts with a slash, and with text and truth
/// values as arguments, can be written so, unless one of its texts holds the
/// character that ends a text.
pub proof fn law_wire_messages(
    bytes: Seq<u8>,
    packet: OscPacketView,
    addr: Seq<char>,
    args: Seq<OscArgView>,
)
    ensures
        crate::osc::wire::reads_back(bytes, packet) <==> crate::osc::wire::decoded(bytes) == Ok::<
            (OscPacketView, nat),
            ::rosc::OscError,
        >((packet, 0)),
        crate::osc::wire::wire_message(OscPacketView::Message(OscMessageView { addr, args })) <==> {
            &&& addr.len() > 0
            &&& addr[0] == '/'
            &&& !addr.contains('\0')
            &&& forall|i: int|
                0 <= i < args.len() ==> (#[trigger] args[i]) !is Other && (args[i] matches
                    OscArgView::String(text) ==> !text.contains('\0'))
        },
{
    let message = OscMessageView { addr, args };
    if crate::osc::wire::wire_message(OscPacketView::Message(message)) {
        assert forall|i: int| 0 <= i < args.len() implies (#[trigger] args[i]) !is Other && (
        args[i] matches OscArgView::String(text) ==> !text.contains('\0')) by {
            assert(message.args[i] == args[i]);
        }
    }
}

} // verus!
