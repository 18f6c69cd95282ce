//! What holds of the OSC endpoint as a whole.
use vstd::prelude::*;

use crate::net::SocketAddr;
use crate::osc::packet::{OscArgView, OscPacketView};
use crate::osc::receiver::{
    DeliveryView, ReceiverActionView, ReceiverEventView, ResponseToOscView,
};
use crate::osc::sender::{
    DispatchView, OscOutMessageView, OscSenderView, SenderActionView, SenderEventView,
};
use crate::osc::state::{OscPlayerStateView, StateRequest};
use crate::player::PlayerMessageView;

verus! {

/// Whether a message reports a playlist.
pub open spec fn reports_playlist(message: OscOutMessageView) -> bool {
    message matches OscOutMessageView::Player(report) && report is Playlist
}

/// Whether a message reports another current song.
pub open spec fn reports_song(message: OscOutMessageView) -> bool {
    message matches OscOutMessageView::Player(report) && (report is Select || report is Play
        || report is Next)
}

/// Only a report of a playlist changes the playlist.
proof fn lemma_playlist_kept(sender: OscSenderView, messages: Seq<OscOutMessageView>)
    requires
        forall|i: int| 0 <= i < messages.len() ==> !reports_playlist(#[trigger] messages[i]),
    ensures
        sender.after_all(messages).state.playlist == sender.state.playlist,
    decreases messages.len(),
{
    if messages.len() > 0 {
        assert(!reports_playlist(messages[messages.len() - 1]));
        lemma_playlist_kept(sender, messages.drop_last());
    }
}

/// Only a report of another song changes the current song.
proof fn lemma_song_kept(sender: OscSenderView, messages: Seq<OscOutMessageView>)
    requires
        forall|i: int| 0 <= i < messages.len() ==> !reports_song(#[trigger] messages[i]),
    ensures
        sender.after_all(messages).state.current_song == sender.state.current_song,
    decreases messages.len(),
{
    if messages.len() > 0 {
        assert(!reports_song(messages[messages.len() - 1]));
        lemma_song_kept(sender, messages.drop_last());
    }
}

/// A client that asks for the playlist is told the one that the player reported
/// last, whatever else happened since.
pub proof fn law_playlist_is_told(
    sender: OscSenderView,
    playlist: Seq<Seq<char>>,
    since: Seq<OscOutMessageView>,
    client: SocketAddr,
)
    requires
        forall|i: int| 0 <= i < since.len() ==> !reports_playlist(#[trigger] since[i]),
    ensures
        sender.after(OscOutMessageView::Player(PlayerMessageView::Playlist(playlist))).after_all(
            since,
        ).dispatch(OscOutMessageView::State(StateRequest::Playlist, client)) == DispatchView::Send(
            crate::osc::packet::text_message("/playlist"@, playlist),
            seq![client],
        ),
{
    lemma_playlist_kept(
        sender.after(OscOutMessageView::Player(PlayerMessageView::Playlist(playlist))),
        since,
    );
}

/// A client that asks for the current song is told the one that the player last
/// selected or played, whatever else happened since.
pub proof fn law_song_is_told(
    sender: OscSenderView,
    report: PlayerMessageView,
    song: Seq<char>,
    since: Seq<OscOutMessageView>,
    client: SocketAddr,
)
    requires
        report == PlayerMessageView::Select(song) || report == PlayerMessageView::Play(song),
        forall|i: int| 0 <= i < since.len() ==> !reports_song(#[trigger] since[i]),
    ensures
        sender.after(OscOutMessageView::Player(report)).after_all(since).dispatch(
            OscOutMessageView::State(StateRequest::CurrentSong, client),
        ) == DispatchView::Send(crate::osc::packet::text_message("/song"@, seq![song]), seq![client]),
{
    lemma_song_kept(sender.after(OscOutMessageView::Player(report)), since);
}

/// Before the player has reported anything, a client that asks is told of an
/// empty playlist, a dash for the song, and that nothing plays.
pub proof fn law_fresh_answers(client: SocketAddr)
    ensures
        crate::osc::sender::fresh_sender().dispatch(
            OscOutMessageView::State(StateRequest::Playlist, client),
        ) == DispatchView::Send(crate::osc::packet::text_message("/playlist"@, seq![]), seq![client]),
        crate::osc::sender::fresh_sender().dispatch(
            OscOutMessageView::State(StateRequest::CurrentSong, client),
        ) == DispatchView::Send(crate::osc::packet::text_message("/song"@, seq!["-"@]), seq![client]),
        crate::osc::sender::fresh_sender().dispatch(
            OscOutMessageView::State(StateRequest::IsPlaying, client),
        ) == DispatchView::Send(crate::osc::packet::bool_message("/is_playing"@, false), seq![client]),
{
}

/// No report makes the endpoint say that the player plays: from the start on, a
/// client that asks is told that it does not. That a song plays is only announced.
pub proof fn law_never_told_to_be_playing(messages: Seq<OscOutMessageView>, client: SocketAddr)
    ensures
        crate::osc::sender::fresh_sender().after_all(messages).dispatch(
            OscOutMessageView::State(StateRequest::IsPlaying, client),
        ) == DispatchView::Send(crate::osc::packet::bool_message("/is_playing"@, false), seq![client]),
{
    lemma_not_playing(messages);
}

proof fn lemma_not_playing(messages: Seq<OscOutMessageView>)
    ensures
        !crate::osc::sender::fresh_sender().after_all(messages).state.is_playing,
    decreases messages.len(),
{
    if messages.len() > 0 {
        lemma_not_playing(messages.drop_last());
    }
}

/// Asking changes nothing of what is known of the player, and an answer goes to
/// the client that asked, whoever else is known.
pub proof fn law_asking_is_harmless(
    sender: OscSenderView,
    request: StateRequest,
    client: SocketAddr,
)
    ensures
        sender.after(OscOutMessageView::State(request, client)).state == sender.state,
        sender.dispatch(OscOutMessageView::State(request, client)) matches DispatchView::Send(
            _,
            recipients,
        ) && recipients == seq![client],
{
}

/// What is known after a series of messages rests on the reports among them
/// alone, in their order.
pub proof fn law_state_rests_on_reports(
    sender: OscSenderView,
    messages: Seq<OscOutMessageView>,
)
    ensures
        sender.after_all(messages).state == crate::osc::state::state_after_all(
            sender.state,
            reports(messages),
        ),
    decreases messages.len(),
{
    if messages.len() > 0 {
        law_state_rests_on_reports(sender, messages.drop_last());
        match messages.last() {
            OscOutMessageView::Player(report) => {
                assert(reports(messages).drop_last() =~= reports(messages.drop_last()));
            },
            _ => {},
        }
    }
}

/// The reports of the player among messages, in order.
pub open spec fn reports(messages: Seq<OscOutMessageView>) -> Seq<PlayerMessageView>
    decreases messages.len(),
{
    if messages.len() == 0 {
        seq![]
    } else {
        match messages.last() {
            OscOutMessageView::Player(report) => reports(messages.drop_last()).push(report),
            _ => reports(messages.drop_last()),
        }
    }
}

/// A client that is known stays known, in its place, and none is held twice.
pub proof fn law_clients_stay_known(sender: OscSenderView, messages: Seq<OscOutMessageView>)
    requires
        sender.well_formed(),
    ensures
        sender.after_all(messages).well_formed(),
        sender.recipients.is_prefix_of(sender.after_all(messages).recipients),
    decreases messages.len(),
{
    if messages.len() > 0 {
        law_clients_stay_known(sender, messages.drop_last());
        let before = sender.after_all(messages.drop_last());
        let after = before.after(messages.last());
        assert(before.recipients.is_prefix_of(after.recipients));
        assert(sender.recipients =~= after.recipients.subrange(
            0,
            sender.recipients.len() as int,
        )) by {
            assert forall|i: int| 0 <= i < sender.recipients.len() implies sender.recipients[i]
                == after.recipients[i] by {
                assert(before.recipients.subrange(0, sender.recipients.len() as int)[i]
                    == before.recipients[i]);
                assert(after.recipients.subrange(0, before.recipients.len() as int)[i]
                    == after.recipients[i]);
            }
        }
    }
}

/// A client becomes known by asking or by being added, and in no other way.
pub proof fn law_clients_become_known(
    sender: OscSenderView,
    message: OscOutMessageView,
    client: SocketAddr,
)
    ensures
        sender.after(message).recipients.contains(client) <==> (sender.recipients.contains(client)
            || message == OscOutMessageView::AddRecipient(client) || (message matches
            OscOutMessageView::State(_, asking) && asking == client)),
{
    match message {
        OscOutMessageView::AddRecipient(added) => {
            lemma_with_recipient(sender.recipients, added, client);
        },
        OscOutMessageView::State(_, asking) => {
            lemma_with_recipient(sender.recipients, asking, client);
        },
        _ => {},
    }
}

proof fn lemma_with_recipient(
    recipients: Seq<SocketAddr>,
    added: SocketAddr,
    client: SocketAddr,
)
    ensures
        crate::osc::sender::with_recipient(recipients, added).contains(client) <==> (
        recipients.contains(client) || added == client),
{
    if !recipients.contains(added) {
        let more = recipients.push(added);
        assert(more[recipients.len() as int] == added);
        if recipients.contains(client) {
            let i = choose|i: int| 0 <= i < recipients.len() && recipients[i] == client;
            assert(more[i] == client);
        }
        if more.contains(client) && added != client {
            let i = choose|i: int| 0 <= i < more.len() && more[i] == client;
            assert(recipients[i] == client);
        }
    }
}

/// A report of the player and a bundle are sent exactly if a client is known,
/// and then to clients that are known: a report to all of them, a bundle to one.
pub proof fn law_unasked_packets(sender: OscSenderView, message: OscOutMessageView)
    requires
        message is Player || message is OscPacket,
    ensures
        sender.recipients.len() == 0 <==> sender.dispatch(message) is NoRecipient,
        sender.recipients.len() > 0 <==> sender.dispatch(message) is Send,
        sender.dispatch(message) matches DispatchView::Send(_, recipients) ==> if message is Player {
            recipients == sender.recipients
        } else {
            recipients.len() == 1 && sender.recipients.contains(recipients[0])
        },
{
}

/// Every client that is known is among those that a report of the player is sent
/// to, and each of them is sent it once.
pub proof fn law_reports_reach_every_client(
    sender: OscSenderView,
    report: PlayerMessageView,
    client: SocketAddr,
)
    requires
        sender.well_formed(),
        sender.recipients.contains(client),
    ensures
        sender.dispatch(OscOutMessageView::Player(report)) matches DispatchView::Send(
            packet,
            recipients,
        ) && packet == crate::osc::state::announcement(
            report,
            crate::osc::state::state_after(sender.state, report),
        ) && recipients.contains(client) && recipients.no_duplicates(),
        sender.action(SenderEventView::Message(OscOutMessageView::Player(report))) matches
            SenderActionView::Transmit(bytes, recipients) && bytes == crate::osc::wire::encoded(
            crate::osc::state::announcement(
                report,
                crate::osc::state::state_after(sender.state, report),
            ),
        ) && recipients.contains(client) && recipients.no_duplicates(),
{
    assert(sender.recipients.len() > 0);
}

/// A command of a client goes to the driver as it came, and from then on the
/// client is known and sent every report of the player.
pub proof fn law_command_registers_client(
    sender: OscSenderView,
    packet: OscPacketView,
    client: SocketAddr,
    since: Seq<OscOutMessageView>,
    report: PlayerMessageView,
)
    requires
        sender.well_formed(),
        packet matches OscPacketView::Message(message) && crate::text::first_segment(message.addr)
            == Some("driver"@),
    ensures
        crate::osc::receiver::deliveries_for(
            crate::osc::receiver::response_to(packet, Some(client)),
        ) == seq![
            DeliveryView::ToDriver(packet),
            DeliveryView::ToSender(OscOutMessageView::AddRecipient(client)),
        ],
        sender.after(OscOutMessageView::AddRecipient(client)).after_all(since).recipients.contains(
            client,
        ),
        sender.after(OscOutMessageView::AddRecipient(client)).after_all(since).dispatch(
            OscOutMessageView::Player(report),
        ) matches DispatchView::Send(_, recipients) && recipients.contains(client),
{
    let registered = sender.after(OscOutMessageView::AddRecipient(client));
    law_clients_become_known(sender, OscOutMessageView::AddRecipient(client), client);
    law_clients_stay_known(registered, since);
    let i = choose|i: int|
        0 <= i < registered.recipients.len() && registered.recipients[i] == client;
    let later = registered.after_all(since);
    assert(later.recipients.subrange(0, registered.recipients.len() as int)[i]
        == later.recipients[i]);
}

/// A message is answered, from the state that is known then, if its address
/// starts with the name of a part of the state.
pub proof fn law_request_is_answered(
    sender: OscSenderView,
    packet: OscPacketView,
    request: StateRequest,
    client: SocketAddr,
)
    requires
        packet matches OscPacketView::Message(message) && crate::text::first_segment(message.addr)
            == Some(
            match request {
                StateRequest::Playlist => "playlist"@,
                StateRequest::CurrentSong => "song"@,
                StateRequest::IsPlaying => "is_playing"@,
            },
        ),
    ensures
        crate::osc::receiver::deliveries_for(
            crate::osc::receiver::response_to(packet, Some(client)),
        ) == seq![DeliveryView::ToSender(OscOutMessageView::State(request, client))],
        sender.dispatch(OscOutMessageView::State(request, client)) == DispatchView::Send(
            crate::osc::state::answer(request, sender.state),
            seq![client],
        ),
{
    reveal_strlit("driver");
    reveal_strlit("song");
    reveal_strlit("playlist");
    reveal_strlit("is_playing");
    assert("driver"@[0] == 'd' && "song"@[0] == 's' && "playlist"@[0] == 'p' && "is_playing"@[0]
        == 'i');
}

/// The same of the loops: a datagram that holds such a message makes the receiving
/// loop hand the request over, and the sending loop then sends the answer to the
/// client that asked.
pub proof fn law_datagram_is_answered(
    sender: OscSenderView,
    bytes: Seq<u8>,
    packet: OscPacketView,
    request: StateRequest,
    client: SocketAddr,
)
    requires
        crate::osc::wire::reads_back(bytes, packet),
        packet matches OscPacketView::Message(message) && crate::text::first_segment(message.addr)
            == Some(
            match request {
                StateRequest::Playlist => "playlist"@,
                StateRequest::CurrentSong => "song"@,
                StateRequest::IsPlaying => "is_playing"@,
            },
        ),
    ensures
        crate::osc::receiver::receiver_action(ReceiverEventView::Datagram(bytes, client))
            == ReceiverActionView::Deliver(
            seq![DeliveryView::ToSender(OscOutMessageView::State(request, client))],
        ),
        sender.action(SenderEventView::Message(OscOutMessageView::State(request, client)))
            == SenderActionView::Transmit(
            crate::osc::wire::encoded(crate::osc::state::answer(request, sender.state)),
            seq![client],
        ),
{
    law_request_is_answered(sender, packet, request, client);
}

/// Nothing comes of a message with any other address, and nothing of a message
/// whose sender is not known.
pub proof fn law_other_messages_are_ignored(packet: OscPacketView, client: Option<SocketAddr>)
    requires
        packet matches OscPacketView::Message(message) && (client is None || (match
            crate::text::first_segment(message.addr) {
            Some(segment) => segment != "driver"@ && segment != "song"@ && segment != "playlist"@
                && segment != "is_playing"@,
            None => true,
        })),
    ensures
        crate::osc::receiver::response_to(packet, client) == ResponseToOscView::Empty,
        crate::osc::receiver::deliveries_for(crate::osc::receiver::response_to(packet, client))
            == Seq::<DeliveryView>::empty(),
{
}

/// A bundle is passed on as it is to one client that is known.
pub proof fn law_bundles_are_passed_on(
    sender: OscSenderView,
    bundle: ::rosc::OscBundle,
    client: Option<SocketAddr>,
)
    requires
        sender.recipients.len() > 0,
    ensures
        crate::osc::receiver::deliveries_for(
            crate::osc::receiver::response_to(OscPacketView::Bundle(bundle), client),
        ) == seq![
            DeliveryView::ToSender(OscOutMessageView::OscPacket(OscPacketView::Bundle(bundle))),
        ],
        sender.dispatch(OscOutMessageView::OscPacket(OscPacketView::Bundle(bundle))) matches
            DispatchView::Send(packet, recipients) && packet == OscPacketView::Bundle(bundle)
            && recipients.len() == 1 && sender.recipients.contains(recipients[0]),
{
}

/// What is announced of a new playlist is what a client is told that asks then.
pub proof fn law_playlist_announcement(state: OscPlayerStateView, playlist: Seq<Seq<char>>)
    ensures
        crate::osc::state::announcement(
            PlayerMessageView::Playlist(playlist),
            crate::osc::state::state_after(state, PlayerMessageView::Playlist(playlist)),
        ) == crate::osc::state::answer(
            StateRequest::Playlist,
            crate::osc::state::state_after(state, PlayerMessageView::Playlist(playlist)),
        ),
{
}

/// A playlist of distinct titles, none of them empty, is walked through by going
/// on: `count` songs behind the one at `position` is the current song, and behind
/// the last one there is none.
pub proof fn law_next_walks_the_playlist(state: OscPlayerStateView, position: int, count: nat)
    requires
        state.playlist.no_duplicates(),
        !state.playlist.contains(seq![]),
        0 <= position < state.playlist.len(),
        state.current_song == Some(state.playlist[position]),
    ensures
        crate::osc::state::state_after_all(
            state,
            Seq::new(count, |i: int| PlayerMessageView::Next),
        ).playlist == state.playlist,
        crate::osc::state::state_after_all(
            state,
            Seq::new(count, |i: int| PlayerMessageView::Next),
        ).current_song == (if position + count < state.playlist.len() {
            Some(state.playlist[position + count])
        } else {
            None
        }),
    decreases count,
{
    let steps = Seq::new(count, |i: int| PlayerMessageView::Next);
    if count > 0 {
        let fewer = (count - 1) as nat;
        assert(steps.drop_last() =~= Seq::new(fewer, |i: int| PlayerMessageView::Next));
        law_next_walks_the_playlist(state, position, fewer);
        let before = crate::osc::state::state_after_all(state, steps.drop_last());
        if position + fewer < state.playlist.len() {
            let title = state.playlist[position + fewer];
            state.playlist.index_of_first_ensures(title);
            assert(state.playlist.contains(title));
            assert(state.playlist.index_of_first(title) == Some(position + fewer));
        } else {
            state.playlist.index_of_first_ensures(seq![]);
        }
        assert(crate::osc::state::state_after_all(state, steps)
            == crate::osc::state::state_after(before, PlayerMessageView::Next));
    }
}

/// Going back, stopping and a new playlist leave the current song as it is, and
/// going back announces it.
pub proof fn law_song_is_left(state: OscPlayerStateView, playlist: Seq<Seq<char>>)
    ensures
        crate::osc::state::state_after(state, PlayerMessageView::Prev) == state,
        crate::osc::state::state_after(state, PlayerMessageView::Stop) == state,
        crate::osc::state::state_after(
            state,
            PlayerMessageView::Playlist(playlist),
        ).current_song == state.current_song,
        crate::osc::state::announcement(PlayerMessageView::Prev, state)
            == crate::osc::packet::text_message(
            "/song/select"@,
            seq![crate::osc::state::title_of(state.current_song)],
        ),
{
}

/// Whether the titles that are known can be written to the wire.
pub open spec fn wire_titles(state: OscPlayerStateView) -> bool {
    &&& forall|i: int|
        0 <= i < state.playlist.len() ==> crate::osc::wire::wire_text(#[trigger] state.playlist[i])
    &&& state.current_song matches Some(title) ==> crate::osc::wire::wire_text(title)
}

/// Whether the titles of a report can be written to the wire.
pub open spec fn wire_report(report: PlayerMessageView) -> bool {
    match report {
        PlayerMessageView::Select(song) => crate::osc::wire::wire_text(song),
        PlayerMessageView::Play(song) => crate::osc::wire::wire_text(song),
        PlayerMessageView::Playlist(playlist) => forall|i: int|
            0 <= i < playlist.len() ==> crate::osc::wire::wire_text(#[trigger] playlist[i]),
        _ => true,
    }
}

/// Every answer and every announcement can be written to the wire and read back,
/// as long as no title holds the character that ends a text there.
pub proof fn law_replies_survive_the_wire(
    state: OscPlayerStateView,
    request: StateRequest,
    report: PlayerMessageView,
)
    requires
        wire_titles(state),
        wire_report(report),
    ensures
        crate::osc::wire::wire_message(crate::osc::state::answer(request, state)),
        crate::osc::wire::wire_message(crate::osc::state::announcement(report, state)),
        wire_titles(crate::osc::state::state_after(state, report)),
{
    lemma_wire_addresses();
    let title = crate::osc::state::title_of(state.current_song);
    assert(crate::osc::wire::wire_text(title));
    lemma_wire_message("/playlist"@, state.playlist);
    lemma_wire_message("/song"@, seq![title]);
    lemma_wire_message("/song/select"@, seq![title]);
    lemma_wire_message("/stop"@, seq![]);
    match report {
        PlayerMessageView::Select(song) => {
            lemma_wire_message("/song/select"@, seq![song]);
        },
        PlayerMessageView::Play(song) => {
            lemma_wire_message("/song/play"@, seq![song]);
        },
        PlayerMessageView::Playlist(playlist) => {
            lemma_wire_message("/playlist"@, playlist);
        },
        PlayerMessageView::Next => {
            let current = match state.current_song {
                Some(title) => title,
                None => seq![],
            };
            state.playlist.index_of_first_ensures(current);
        },
        _ => {},
    }
}

proof fn lemma_wire_message(addr: Seq<char>, texts: Seq<Seq<char>>)
    requires
        addr.len() > 0,
        addr[0] == '/',
        crate::osc::wire::wire_text(addr),
        forall|i: int| 0 <= i < texts.len() ==> crate::osc::wire::wire_text(#[trigger] texts[i]),
    ensures
        crate::osc::wire::wire_message(crate::osc::packet::text_message(addr, texts)),
{
    let args = crate::osc::packet::text_message(addr, texts)->Message_0.args;
    assert forall|i: int| 0 <= i < args.len() implies match #[trigger] args[i] {
        OscArgView::String(text) => crate::osc::wire::wire_text(text),
        OscArgView::Bool(_) => true,
        OscArgView::Other(_) => false,
    } by {
        assert(args[i] == OscArgView::String(texts[i]));
    }
}

proof fn lemma_wire_addresses()
    ensures
        crate::osc::wire::wire_text("-"@),
        "/playlist"@.len() > 0 && "/playlist"@[0] == '/' && crate::osc::wire::wire_text(
            "/playlist"@,
        ),
        "/song"@.len() > 0 && "/song"@[0] == '/' && crate::osc::wire::wire_text("/song"@),
        "/is_playing"@.len() > 0 && "/is_playing"@[0] == '/' && crate::osc::wire::wire_text(
            "/is_playing"@,
        ),
        "/song/select"@.len() > 0 && "/song/select"@[0] == '/' && crate::osc::wire::wire_text(
            "/song/select"@,
        ),
        "/song/play"@.len() > 0 && "/song/play"@[0] == '/' && crate::osc::wire::wire_text(
            "/song/play"@,
        ),
        "/stop"@.len() > 0 && "/stop"@[0] == '/' && crate::osc::wire::wire_text("/stop"@),
{
    reveal_strlit("-");
    reveal_strlit("/playlist");
    reveal_strlit("/song");
    reveal_strlit("/is_playing");
    reveal_strlit("/song/select");
    reveal_strlit("/song/play");
    reveal_strlit("/stop");
}

} // verus!
