//! What holds of the loops of the endpoint over a series of turns.
use vstd::prelude::*;

use crate::net::SocketAddr;
use crate::osc::packet::{OscArgView, OscMessageView, OscPacket, OscPacketView};
use crate::osc::receiver::{
    Delivery, DeliveryView, ReceiveError, ReceiverAction, ReceiverActionView, ReceiverEvent,
    ReceiverEventView, ResponseToOsc, ResponseToOscView,
};
use crate::osc::sender::{
    Dispatch, DispatchView, OscOutMessage, OscOutMessageView, OscSenderView, SenderAction,
    SenderActionView, SenderEvent, SenderEventView,
};
use crate::osc::state::StateRequest;
use crate::player::{PlayerMessage, PlayerMessageView};

verus! {

/// The sending side after a series of turns of its loop.
pub open spec fn after_turns(
    sender: OscSenderView,
    events: Seq<SenderEventView>,
) -> OscSenderView
    decreases events.len(),
{
    if events.len() == 0 {
        sender
    } else {
        after_turns(sender, events.drop_last()).after_event(events.last())
    }
}

/// The reports of the player among the events of a loop, in order.
pub open spec fn reports_among(events: Seq<SenderEventView>) -> Seq<PlayerMessageView>
    decreases events.len(),
{
    if events.len() == 0 {
        seq![]
    } else {
        match events.last() {
            SenderEventView::Message(OscOutMessageView::Player(report)) => reports_among(
                events.drop_last(),
            ).push(report),
            _ => reports_among(events.drop_last()),
        }
    }
}

/// What a turn of the sending loop leaves behind: a report is taken into account, a
/// client that asks or is added is known from then on behind those known before,
/// and nothing else changes.
pub proof fn law_turn(
    sender: OscSenderView,
    report: PlayerMessageView,
    packet: OscPacketView,
    request: StateRequest,
    client: SocketAddr,
)
    ensures
        ({
            let after = sender.after_event(
                SenderEventView::Message(OscOutMessageView::Player(report)),
            );
            &&& after.state == crate::osc::state::state_after(sender.state, report)
            &&& after.recipients == sender.recipients
        }),
        sender.after_event(SenderEventView::Message(OscOutMessageView::OscPacket(packet)))
            == sender,
        ({
            let after = sender.after_event(
                SenderEventView::Message(OscOutMessageView::State(request, client)),
            );
            &&& after.state == sender.state
            &&& sender.recipients.contains(client) ==> after.recipients == sender.recipients
            &&& !sender.recipients.contains(client) ==> after.recipients
                == sender.recipients + seq![client]
        }),
        ({
            let after = sender.after_event(
                SenderEventView::Message(OscOutMessageView::AddRecipient(client)),
            );
            &&& after.state == sender.state
            &&& sender.recipients.contains(client) ==> after.recipients == sender.recipients
            &&& !sender.recipients.contains(client) ==> after.recipients
                == sender.recipients + seq![client]
        }),
        sender.after_event(SenderEventView::NoMessage) == sender,
        sender.after_event(SenderEventView::Cancelled) == sender,
        crate::osc::sender::fresh_sender().state == crate::osc::state::unknown_player(),
        crate::osc::sender::fresh_sender().recipients.len() == 0,
{
    assert(!sender.recipients.contains(client) ==> sender.recipients.push(client)
        =~= sender.recipients + seq![client]);
}

/// A turn of the loop takes a message into account as handling the message does.
pub proof fn law_turn_is_handling(sender: OscSenderView, message: OscOutMessageView)
    ensures
        sender.after_event(SenderEventView::Message(message)) == sender.after(message),
        sender.action(SenderEventView::Message(message)) == (match sender.dispatch(message) {
            DispatchView::Send(packet, clients) => SenderActionView::Transmit(
                crate::osc::wire::encoded(packet),
                clients,
            ),
            DispatchView::NoRecipient => SenderActionView::Wait,
            DispatchView::NothingToSend => SenderActionView::Wait,
        }),
{
}

/// What comes of handling a message: what is told of a report goes to all clients
/// known, a packet that is passed on to one of them, an answer to the client that
/// asked; without a client known there is no recipient, and to remember a client
/// sends nothing.
pub proof fn law_dispatch(
    sender: OscSenderView,
    report: PlayerMessageView,
    packet: OscPacketView,
    request: StateRequest,
    client: SocketAddr,
)
    ensures
        sender.dispatch(OscOutMessageView::Player(report)) == (if sender.recipients.len() > 0 {
            DispatchView::Send(
                crate::osc::state::announcement(
                    report,
                    crate::osc::state::state_after(sender.state, report),
                ),
                sender.recipients,
            )
        } else {
            DispatchView::NoRecipient
        }),
        sender.dispatch(OscOutMessageView::OscPacket(packet)) == (if sender.recipients.len() > 0 {
            DispatchView::Send(packet, seq![sender.recipients[0]])
        } else {
            DispatchView::NoRecipient
        }),
        sender.dispatch(OscOutMessageView::State(request, client)) == DispatchView::Send(
            crate::osc::state::answer(request, sender.state),
            seq![client],
        ),
        sender.dispatch(OscOutMessageView::AddRecipient(client)) == DispatchView::NothingToSend,
{
}

/// What a turn of the sending loop does: a report is told to all clients, a packet
/// that is passed on goes to one, an answer to the client that asked, nothing is
/// sent to nobody, and the loop ends when it is cancelled.
pub proof fn law_turn_action(
    sender: OscSenderView,
    report: PlayerMessageView,
    packet: OscPacketView,
    request: StateRequest,
    client: SocketAddr,
)
    ensures
        sender.recipients.len() > 0 ==> sender.action(
            SenderEventView::Message(OscOutMessageView::Player(report)),
        ) == SenderActionView::Transmit(
            crate::osc::wire::encoded(
                crate::osc::state::announcement(
                    report,
                    crate::osc::state::state_after(sender.state, report),
                ),
            ),
            sender.recipients,
        ),
        sender.recipients.len() == 0 ==> sender.action(
            SenderEventView::Message(OscOutMessageView::Player(report)),
        ) == SenderActionView::Wait,
        sender.recipients.len() > 0 ==> sender.action(
            SenderEventView::Message(OscOutMessageView::OscPacket(packet)),
        ) == SenderActionView::Transmit(
            crate::osc::wire::encoded(packet),
            seq![sender.recipients[0]],
        ),
        sender.recipients.len() == 0 ==> sender.action(
            SenderEventView::Message(OscOutMessageView::OscPacket(packet)),
        ) == SenderActionView::Wait,
        sender.action(SenderEventView::Message(OscOutMessageView::State(request, client)))
            == SenderActionView::Transmit(
            crate::osc::wire::encoded(crate::osc::state::answer(request, sender.state)),
            seq![client],
        ),
        sender.action(SenderEventView::Message(OscOutMessageView::AddRecipient(client)))
            == SenderActionView::Wait,
        sender.action(SenderEventView::NoMessage) == SenderActionView::Wait,
        sender.action(SenderEventView::Cancelled) == SenderActionView::Finish,
{
}

/// What the loop knows of the player after a series of turns is what the reports
/// among them say, in their order.
pub proof fn law_loop_keeps_reports(sender: OscSenderView, events: Seq<SenderEventView>)
    ensures
        after_turns(sender, events).state == crate::osc::state::state_after_all(
            sender.state,
            reports_among(events),
        ),
    decreases events.len(),
{
    if events.len() > 0 {
        law_loop_keeps_reports(sender, events.drop_last());
        match events.last() {
            SenderEventView::Message(OscOutMessageView::Player(report)) => {
                assert(reports_among(events).drop_last() =~= reports_among(events.drop_last()));
            },
            _ => {},
        }
    }
}

/// A series of reports is taken into account one after the other.
pub proof fn law_series_of_reports(
    state: crate::osc::state::OscPlayerStateView,
    reports: Seq<PlayerMessageView>,
    last: PlayerMessageView,
)
    ensures
        crate::osc::state::state_after_all(state, Seq::empty()) == state,
        crate::osc::state::state_after_all(state, reports.push(last))
            == crate::osc::state::state_after(
            crate::osc::state::state_after_all(state, reports),
            last,
        ),
{
    assert(reports.push(last).drop_last() =~= reports);
}

proof fn lemma_playlist_stays(sender: OscSenderView, events: Seq<SenderEventView>)
    requires
        forall|i: int|
            0 <= i < events.len() ==> !((#[trigger] events[i]) matches SenderEventView::Message(
                OscOutMessageView::Player(PlayerMessageView::Playlist(_)),
            )),
    ensures
        after_turns(sender, events).state.playlist == sender.state.playlist,
    decreases events.len(),
{
    if events.len() > 0 {
        assert(events[events.len() - 1] == events.last());
        lemma_playlist_stays(sender, events.drop_last());
    }
}

proof fn lemma_song_stays(sender: OscSenderView, events: Seq<SenderEventView>)
    requires
        forall|i: int|
            0 <= i < events.len() ==> !((#[trigger] events[i]) matches SenderEventView::Message(
                OscOutMessageView::Player(report),
            ) && (report is Select || report is Play || report is Next)),
    ensures
        after_turns(sender, events).state.current_song == sender.state.current_song,
    decreases events.len(),
{
    if events.len() > 0 {
        assert(events[events.len() - 1] == events.last());
        lemma_song_stays(sender, events.drop_last());
    }
}

/// The loop keeps the playlist: a client that asks for it, any number of turns
/// after the player reported it, is sent `/playlist` with exactly the titles of the
/// last report, in order.
pub proof fn law_loop_tells_the_playlist(
    sender: OscSenderView,
    playlist: Seq<Seq<char>>,
    since: Seq<SenderEventView>,
    client: SocketAddr,
)
    requires
        forall|i: int|
            0 <= i < since.len() ==> !((#[trigger] since[i]) matches SenderEventView::Message(
                OscOutMessageView::Player(PlayerMessageView::Playlist(_)),
            )),
    ensures
        after_turns(
            sender.after_event(
                SenderEventView::Message(
                    OscOutMessageView::Player(PlayerMessageView::Playlist(playlist)),
                ),
            ),
            since,
        ).action(
            SenderEventView::Message(OscOutMessageView::State(StateRequest::Playlist, client)),
        ) == SenderActionView::Transmit(
            crate::osc::wire::encoded(
                OscPacketView::Message(
                    OscMessageView {
                        addr: "/playlist"@,
                        args: Seq::new(playlist.len(), |i: int| OscArgView::String(playlist[i])),
                    },
                ),
            ),
            seq![client],
        ),
{
    let told = sender.after_event(
        SenderEventView::Message(OscOutMessageView::Player(PlayerMessageView::Playlist(playlist))),
    );
    lemma_playlist_stays(told, since);
    crate::osc::telling::law_answers(after_turns(told, since).state);
}

/// The loop keeps the song: a client that asks for it, any number of turns after the
/// player selected or played it, is sent `/song` with its title.
pub proof fn law_loop_tells_the_song(
    sender: OscSenderView,
    report: PlayerMessageView,
    song: Seq<char>,
    since: Seq<SenderEventView>,
    client: SocketAddr,
)
    requires
        report == PlayerMessageView::Select(song) || report == PlayerMessageView::Play(song),
        forall|i: int|
            0 <= i < since.len() ==> !((#[trigger] since[i]) matches SenderEventView::Message(
                OscOutMessageView::Player(other),
            ) && (other is Select || other is Play || other is Next)),
    ensures
        after_turns(
            sender.after_event(SenderEventView::Message(OscOutMessageView::Player(report))),
            since,
        ).action(
            SenderEventView::Message(OscOutMessageView::State(StateRequest::CurrentSong, client)),
        ) == SenderActionView::Transmit(
            crate::osc::wire::encoded(
                OscPacketView::Message(
                    OscMessageView { addr: "/song"@, args: seq![OscArgView::String(song)] },
                ),
            ),
            seq![client],
        ),
{
    let told = sender.after_event(SenderEventView::Message(OscOutMessageView::Player(report)));
    lemma_song_stays(told, since);
    crate::osc::telling::law_answers(after_turns(told, since).state);
}

/// The loop keeps its clients: one that asked or was added is sent every report
/// that comes any number of turns later, and no client is sent a report twice.
pub proof fn law_loop_keeps_clients(
    sender: OscSenderView,
    since: Seq<SenderEventView>,
    request: StateRequest,
    client: SocketAddr,
    joins: SenderEventView,
    report: PlayerMessageView,
)
    requires
        sender.recipients.no_duplicates(),
        joins == SenderEventView::Message(OscOutMessageView::AddRecipient(client)) || joins
            == SenderEventView::Message(OscOutMessageView::State(request, client)),
    ensures
        after_turns(sender.after_event(joins), since).action(
            SenderEventView::Message(OscOutMessageView::Player(report)),
        ) matches SenderActionView::Transmit(_, clients) && clients.contains(client)
            && clients.no_duplicates(),
{
    let joined = sender.after_event(joins);
    if !sender.recipients.contains(client) {
        assert(joined.recipients[sender.recipients.len() as int] == client);
    }
    assert(joined.recipients.contains(client));
    lemma_clients_stay(joined, since, client);
}

proof fn lemma_clients_stay(
    sender: OscSenderView,
    events: Seq<SenderEventView>,
    client: SocketAddr,
)
    requires
        sender.recipients.no_duplicates(),
        sender.recipients.contains(client),
    ensures
        after_turns(sender, events).recipients.no_duplicates(),
        after_turns(sender, events).recipients.contains(client),
    decreases events.len(),
{
    if events.len() > 0 {
        lemma_clients_stay(sender, events.drop_last(), client);
        let before = after_turns(sender, events.drop_last()).recipients;
        let after = after_turns(sender, events).recipients;
        let i = choose|i: int| 0 <= i < before.len() && before[i] == client;
        assert(after[i] == client);
    }
}

/// What a packet calls for is decided by the first segment of its address.
pub proof fn law_responses(
    message: OscMessageView,
    bundle: ::rosc::OscBundle,
    client: SocketAddr,
    unknown: Option<SocketAddr>,
)
    ensures
        crate::text::first_segment(message.addr) == Some("driver"@)
            ==> crate::osc::receiver::response_to(OscPacketView::Message(message), Some(client))
            == ResponseToOscView::Driver(OscPacketView::Message(message), client),
        crate::text::first_segment(message.addr) == Some("song"@)
            ==> crate::osc::receiver::response_to(OscPacketView::Message(message), Some(client))
            == ResponseToOscView::State(StateRequest::CurrentSong, client),
        crate::text::first_segment(message.addr) == Some("playlist"@)
            ==> crate::osc::receiver::response_to(OscPacketView::Message(message), Some(client))
            == ResponseToOscView::State(StateRequest::Playlist, client),
        crate::text::first_segment(message.addr) == Some("is_playing"@)
            ==> crate::osc::receiver::response_to(OscPacketView::Message(message), Some(client))
            == ResponseToOscView::State(StateRequest::IsPlaying, client),
        crate::osc::receiver::response_to(OscPacketView::Message(message), None)
            == ResponseToOscView::Empty,
        crate::osc::receiver::response_to(OscPacketView::Bundle(bundle), unknown)
            == ResponseToOscView::Osc(OscPacketView::Bundle(bundle)),
{
    reveal_strlit("driver");
    reveal_strlit("song");
    reveal_strlit("playlist");
    reveal_strlit("is_playing");
    assert("driver"@[0] == 'd' && "song"@[0] == 's' && "playlist"@[0] == 'p' && "is_playing"@[0]
        == 'i');
}

/// What is handed over for a response, in order, and to whom.
pub proof fn law_deliveries(
    packet: OscPacketView,
    request: StateRequest,
    client: SocketAddr,
    list: Seq<Delivery>,
)
    ensures
        crate::osc::receiver::deliveries_for(ResponseToOscView::Osc(packet)) == seq![
            DeliveryView::ToSender(OscOutMessageView::OscPacket(packet)),
        ],
        crate::osc::receiver::deliveries_for(ResponseToOscView::State(request, client)) == seq![
            DeliveryView::ToSender(OscOutMessageView::State(request, client)),
        ],
        crate::osc::receiver::deliveries_for(ResponseToOscView::Driver(packet, client)) == seq![
            DeliveryView::ToDriver(packet),
            DeliveryView::ToSender(OscOutMessageView::AddRecipient(client)),
        ],
        crate::osc::receiver::deliveries_for(ResponseToOscView::Empty).len() == 0,
        crate::osc::receiver::deliveries(list).len() == list.len(),
        forall|i: int|
            0 <= i < list.len() ==> #[trigger] crate::osc::receiver::deliveries(list)[i]
                == list[i]@,
{
}

/// What a turn of the receiving loop does: a datagram that holds one packet and
/// nothing else is handed over, any other is a fault, and so is a socket without
/// one; the loop makes room for the sending side and ends when it is cancelled.
pub proof fn law_receiving_turn(
    bytes: Seq<u8>,
    client: SocketAddr,
    packet: OscPacketView,
    rest: usize,
    error: ::rosc::OscError,
)
    ensures
        crate::osc::wire::decoded(bytes) == Ok::<(OscPacketView, nat), ::rosc::OscError>(
            (packet, 0),
        ) ==> crate::osc::receiver::receiver_action(ReceiverEventView::Datagram(bytes, client))
            == ReceiverActionView::Deliver(
            crate::osc::receiver::deliveries_for(
                crate::osc::receiver::response_to(packet, Some(client)),
            ),
        ),
        rest > 0 && crate::osc::wire::decoded(bytes) == Ok::<
            (OscPacketView, nat),
            ::rosc::OscError,
        >((packet, rest as nat)) ==> crate::osc::receiver::receiver_action(
            ReceiverEventView::Datagram(bytes, client),
        ) == ReceiverActionView::Fail(ReceiveError::TrailingBytes(rest)),
        crate::osc::wire::decoded(bytes) == Err::<(OscPacketView, nat), ::rosc::OscError>(error)
            ==> crate::osc::receiver::receiver_action(ReceiverEventView::Datagram(bytes, client))
            == ReceiverActionView::Fail(ReceiveError::Undecodable(error)),
        crate::osc::receiver::receiver_action(ReceiverEventView::SocketFailed)
            == ReceiverActionView::Fail(ReceiveError::NoDatagram),
        crate::osc::receiver::receiver_action(ReceiverEventView::Interrupted)
            == ReceiverActionView::Yield,
        crate::osc::receiver::receiver_action(ReceiverEventView::Cancelled)
            == ReceiverActionView::Finish,
        crate::osc::receiver::whole_packet(
            Ok::<(OscPacketView, nat), ::rosc::OscError>((packet, 0)),
        ) == Ok::<OscPacketView, ReceiveError>(packet),
        rest > 0 ==> crate::osc::receiver::whole_packet(
            Ok::<(OscPacketView, nat), ::rosc::OscError>((packet, rest as nat)),
        ) == Err::<OscPacketView, ReceiveError>(ReceiveError::TrailingBytes(rest)),
        crate::osc::receiver::whole_packet(
            Err::<(OscPacketView, nat), ::rosc::OscError>(error),
        ) == Err::<OscPacketView, ReceiveError>(ReceiveError::Undecodable(error)),
{
}

/// The messages, events and actions of the loops say what they hold.
pub proof fn law_loop_views(
    report: PlayerMessage,
    packet: OscPacket,
    request: StateRequest,
    client: SocketAddr,
    clients: Vec<SocketAddr>,
    bytes: Vec<u8>,
    message: OscOutMessage,
    list: Vec<Delivery>,
    error: ReceiveError,
)
    ensures
        OscOutMessage::Player(report)@ == OscOutMessageView::Player(report@),
        OscOutMessage::OscPacket(packet)@ == OscOutMessageView::OscPacket(packet@),
        OscOutMessage::State(request, client)@ == OscOutMessageView::State(request, client),
        OscOutMessage::AddRecipient(client)@ == OscOutMessageView::AddRecipient(client),
        Dispatch::Send(packet, clients)@ == DispatchView::Send(packet@, clients@),
        Dispatch::NoRecipient@ == DispatchView::NoRecipient,
        Dispatch::NothingToSend@ == DispatchView::NothingToSend,
        SenderEvent::Message(message)@ == SenderEventView::Message(message@),
        SenderEvent::NoMessage@ == SenderEventView::NoMessage,
        SenderEvent::Cancelled@ == SenderEventView::Cancelled,
        SenderAction::Transmit(bytes, clients)@ == SenderActionView::Transmit(bytes@, clients@),
        SenderAction::Wait@ == SenderActionView::Wait,
        SenderAction::Finish@ == SenderActionView::Finish,
        ReceiverEvent::Datagram(bytes, client)@ == ReceiverEventView::Datagram(bytes@, client),
        ReceiverEvent::SocketFailed@ == ReceiverEventView::SocketFailed,
        ReceiverEvent::Interrupted@ == ReceiverEventView::Interrupted,
        ReceiverEvent::Cancelled@ == ReceiverEventView::Cancelled,
        ReceiverAction::Deliver(list)@ == ReceiverActionView::Deliver(
            Seq::new(list@.len(), |i: int| list@[i]@),
        ),
        ReceiverAction::Yield@ == ReceiverActionView::Yield,
        ReceiverAction::Finish@ == ReceiverActionView::Finish,
        ReceiverAction::Fail(error)@ == ReceiverActionView::Fail(error),
        Delivery::ToSender(message)@ == DeliveryView::ToSender(message@),
        Delivery::ToDriver(packet)@ == DeliveryView::ToDriver(packet@),
        ResponseToOsc::Osc(packet)@ == ResponseToOscView::Osc(packet@),
        ResponseToOsc::State(request, client)@ == ResponseToOscView::State(request, client),
        ResponseToOsc::Driver(packet, client)@ == ResponseToOscView::Driver(packet@, client),
        ResponseToOsc::Empty@ == ResponseToOscView::Empty,
        <ResponseToOsc as vstd::std_specs::convert::FromSpec<
            (StateRequest, Option<SocketAddr>),
        >>::from_spec((request, Some(client)))
            == ResponseToOsc::State(request, client),
        <ResponseToOsc as vstd::std_specs::convert::FromSpec<
            (StateRequest, Option<SocketAddr>),
        >>::from_spec((request, None))
            == ResponseToOsc::Empty,
{
    assert(crate::osc::receiver::deliveries(list@) =~= Seq::new(
        list@.len(),
        |i: int| list@[i]@,
    ));
}

} // verus!
