//! The receiving side: reads what clients send and decides what comes of it.
use vstd::prelude::*;

use crate::net::SocketAddr;
use crate::osc::packet::{OscPacket, OscPacketView};
use crate::osc::sender::{OscOutMessage, OscOutMessageView};
use crate::osc::state::StateRequest;
use crate::osc::wire::decode_udp;
use crate::player::PlayerMessage;
use crate::text::{address_segment, same_text};

verus! {

/// What a packet calls for.
pub enum ResponseToOsc {
    /// The packet is passed on to a client.
    Osc(OscPacket),
    /// The client is told a part of the state.
    State(StateRequest, SocketAddr),
    /// The packet is a command for the player, and the client is to be remembered.
    Driver(OscPacket, SocketAddr),
    /// Nothing.
    Empty,
}

/// The same, with texts as sequences.
pub enum ResponseToOscView {
    Osc(OscPacketView),
    State(StateRequest, SocketAddr),
    Driver(OscPacketView, SocketAddr),
    Empty,
}

impl View for ResponseToOsc {
    type V = ResponseToOscView;

    open spec fn view(&self) -> ResponseToOscView {
        match self {
            ResponseToOsc::Osc(packet) => ResponseToOscView::Osc(packet@),
            ResponseToOsc::State(request, client) => ResponseToOscView::State(*request, *client),
            ResponseToOsc::Driver(packet, client) => ResponseToOscView::Driver(packet@, *client),
            ResponseToOsc::Empty => ResponseToOscView::Empty,
        }
    }
}

impl From<(StateRequest, Option<SocketAddr>)> for ResponseToOsc {
    /// A request is answered where it is known who asks.
    fn from(request: (StateRequest, Option<SocketAddr>)) -> (response: Self) {
        match request.1 {
            Some(client) => ResponseToOsc::State(request.0, client),
            None => ResponseToOsc::Empty,
        }
    }
}

impl vstd::std_specs::convert::FromSpecImpl<(StateRequest, Option<SocketAddr>)> for ResponseToOsc {
    open spec fn obeys_from_spec() -> bool {
        true
    }

    open spec fn from_spec(request: (StateRequest, Option<SocketAddr>)) -> ResponseToOsc {
        match request.1 {
            Some(client) => ResponseToOsc::State(request.0, client),
            None => ResponseToOsc::Empty,
        }
    }
}

/// What a request for a part of the state calls for.
pub open spec fn state_response(
    request: StateRequest,
    client: Option<SocketAddr>,
) -> ResponseToOscView {
    match client {
        Some(client) => ResponseToOscView::State(request, client),
        None => ResponseToOscView::Empty,
    }
}

/// What a packet of a client calls for. The first segment of a message's address
/// decides; a bundle is passed on.
pub open spec fn response_to(
    packet: OscPacketView,
    client: Option<SocketAddr>,
) -> ResponseToOscView {
    match packet {
        OscPacketView::Message(message) => match crate::text::first_segment(message.addr) {
            Some(segment) => if segment == "driver"@ {
                match client {
                    Some(client) => ResponseToOscView::Driver(packet, client),
                    None => ResponseToOscView::Empty,
                }
            } else if segment == "song"@ {
                state_response(StateRequest::CurrentSong, client)
            } else if segment == "playlist"@ {
                state_response(StateRequest::Playlist, client)
            } else if segment == "is_playing"@ {
                state_response(StateRequest::IsPlaying, client)
            } else {
                ResponseToOscView::Empty
            },
            None => ResponseToOscView::Empty,
        },
        OscPacketView::Bundle(_) => ResponseToOscView::Osc(packet),
    }
}

/// Something to hand over to another part of the program.
pub enum Delivery {
    /// To the sending side.
    ToSender(OscOutMessage),
    /// To the driver that controls the player.
    ToDriver(OscPacket),
}

/// The same, with texts as sequences.
pub enum DeliveryView {
    ToSender(OscOutMessageView),
    ToDriver(OscPacketView),
}

impl View for Delivery {
    type V = DeliveryView;

    open spec fn view(&self) -> DeliveryView {
        match self {
            Delivery::ToSender(message) => DeliveryView::ToSender(message@),
            Delivery::ToDriver(packet) => DeliveryView::ToDriver(packet@),
        }
    }
}

/// A list of deliveries, with texts as sequences.
pub open spec fn deliveries(list: Seq<Delivery>) -> Seq<DeliveryView> {
    list.map_values(|d: Delivery| d@)
}

/// What is handed over for a response, in this order.
pub open spec fn deliveries_for(response: ResponseToOscView) -> Seq<DeliveryView> {
    match response {
        ResponseToOscView::Osc(packet) => seq![
            DeliveryView::ToSender(OscOutMessageView::OscPacket(packet)),
        ],
        ResponseToOscView::State(request, client) => seq![
            DeliveryView::ToSender(OscOutMessageView::State(request, client)),
        ],
        ResponseToOscView::Driver(packet, client) => seq![
            DeliveryView::ToDriver(packet),
            DeliveryView::ToSender(OscOutMessageView::AddRecipient(client)),
        ],
        ResponseToOscView::Empty => seq![],
    }
}

/// Why a datagram could not be taken.
pub enum ReceiveError {
    /// The socket gave no datagram.
    NoDatagram,
    /// The datagram holds no packet.
    Undecodable(::rosc::OscError),
    /// So many bytes follow the packet.
    TrailingBytes(usize),
}

/// The packet of a datagram that holds one packet and nothing else.
pub open spec fn whole_packet(
    read: Result<(OscPacketView, nat), ::rosc::OscError>,
) -> Result<OscPacketView, ReceiveError> {
    match read {
        Ok((packet, rest)) => if rest == 0 {
            Ok(packet)
        } else {
            Err(ReceiveError::TrailingBytes(rest as usize))
        },
        Err(error) => Err(ReceiveError::Undecodable(error)),
    }
}

/// What the receiving loop is woken by.
pub enum ReceiverEvent {
    /// A datagram has come from a client.
    Datagram(Vec<u8>, SocketAddr),
    /// The socket failed.
    SocketFailed,
    /// The sending side wants the socket.
    Interrupted,
    /// The endpoint shuts down.
    Cancelled,
}

/// The same, with the bytes as a sequence.
pub enum ReceiverEventView {
    Datagram(Seq<u8>, SocketAddr),
    SocketFailed,
    Interrupted,
    Cancelled,
}

impl View for ReceiverEvent {
    type V = ReceiverEventView;

    open spec fn view(&self) -> ReceiverEventView {
        match self {
            ReceiverEvent::Datagram(bytes, client) => ReceiverEventView::Datagram(bytes@, *client),
            ReceiverEvent::SocketFailed => ReceiverEventView::SocketFailed,
            ReceiverEvent::Interrupted => ReceiverEventView::Interrupted,
            ReceiverEvent::Cancelled => ReceiverEventView::Cancelled,
        }
    }
}

/// What the receiving loop does next.
pub enum ReceiverAction {
    /// Hand these over, then wait for the next event.
    Deliver(Vec<Delivery>),
    /// Leave the socket to the sending side, then wait for the next event.
    Yield,
    /// End the loop.
    Finish,
    /// Give up.
    Fail(ReceiveError),
}

/// The same, with the deliveries as a sequence.
pub enum ReceiverActionView {
    Deliver(Seq<DeliveryView>),
    Yield,
    Finish,
    Fail(ReceiveError),
}

impl View for ReceiverAction {
    type V = ReceiverActionView;

    open spec fn view(&self) -> ReceiverActionView {
        match self {
            ReceiverAction::Deliver(list) => ReceiverActionView::Deliver(deliveries(list@)),
            ReceiverAction::Yield => ReceiverActionView::Yield,
            ReceiverAction::Finish => ReceiverActionView::Finish,
            ReceiverAction::Fail(error) => ReceiverActionView::Fail(*error),
        }
    }
}

/// What the receiving loop does upon an event.
pub open spec fn receiver_action(event: ReceiverEventView) -> ReceiverActionView {
    match event {
        ReceiverEventView::Datagram(bytes, client) => match whole_packet(
            crate::osc::wire::decoded(bytes),
        ) {
            Ok(packet) => ReceiverActionView::Deliver(
                deliveries_for(response_to(packet, Some(client))),
            ),
            Err(error) => ReceiverActionView::Fail(error),
        },
        ReceiverEventView::SocketFailed => ReceiverActionView::Fail(ReceiveError::NoDatagram),
        ReceiverEventView::Interrupted => ReceiverActionView::Yield,
        ReceiverEventView::Cancelled => ReceiverActionView::Finish,
    }
}

/// The receiving side of the endpoint.
pub struct OscReceiver {}

impl OscReceiver {
    /// Decides what a packet of a client calls for.
    pub fn handle_packet(packet: OscPacket, client: Option<SocketAddr>) -> (response: ResponseToOsc)
        ensures
            response@ == response_to(packet@, client),
    {
        let request = match &packet {
            OscPacket::Message(message) => match address_segment(message.addr.as_str()) {
                Some(segment) => if same_text(segment, "driver") {
                    match client {
                        Some(client) => {
                            return ResponseToOsc::Driver(packet, client);
                        },
                        None => {
                            return ResponseToOsc::Empty;
                        },
                    }
                } else if same_text(segment, "song") {
                    StateRequest::CurrentSong
                } else if same_text(segment, "playlist") {
                    StateRequest::Playlist
                } else if same_text(segment, "is_playing") {
                    StateRequest::IsPlaying
                } else {
                    return ResponseToOsc::Empty;
                },
                None => {
                    return ResponseToOsc::Empty;
                },
            },
            OscPacket::Bundle(_) => {
                return ResponseToOsc::Osc(packet);
            },
        };
        ResponseToOsc::from((request, client))
    }

    /// Lists what is handed over for a response, in order.
    pub fn deliver_response(response: ResponseToOsc) -> (list: Vec<Delivery>)
        ensures
            deliveries(list@) == deliveries_for(response@),
    {
        let list: Vec<Delivery> = match response {
            ResponseToOsc::Osc(packet) => vec![Delivery::ToSender(OscOutMessage::OscPacket(packet))],
            ResponseToOsc::State(request, client) => vec![
                Delivery::ToSender(OscOutMessage::State(request, client)),
            ],
            ResponseToOsc::Driver(packet, client) => vec![
                Delivery::ToDriver(packet),
                Delivery::ToSender(OscOutMessage::AddRecipient(client)),
            ],
            ResponseToOsc::Empty => Vec::new(),
        };
        assert(deliveries(list@) =~= deliveries_for(response@));
        list
    }

    /// Takes what was read of a datagram, if nothing was left of it.
    pub fn whole_packet(read: Result<(OscPacket, usize), ::rosc::OscError>) -> (packet: Result<
        OscPacket,
        ReceiveError,
    >)
        ensures
            match read {
                Ok((content, rest)) => if rest == 0 {
                    packet matches Ok(p) && p == content
                } else {
                    packet matches Err(e) && e == ReceiveError::TrailingBytes(rest)
                },
                Err(error) => packet matches Err(e) && e == ReceiveError::Undecodable(error),
            },
    {
        match read {
            Ok((content, rest)) => if rest == 0 {
                Ok(content)
            } else {
                Err(ReceiveError::TrailingBytes(rest))
            },
            Err(error) => Err(ReceiveError::Undecodable(error)),
        }
    }

    /// The packet of a datagram.
    pub fn receive(bytes: &[u8]) -> (packet: Result<OscPacket, ReceiveError>)
        ensures
            match packet {
                Ok(p) => whole_packet(crate::osc::wire::decoded(bytes@)) matches Ok(named)
                    && named == p@,
                Err(e) => whole_packet(crate::osc::wire::decoded(bytes@)) matches Err(named)
                    && named == e,
            },
    {
        OscReceiver::whole_packet(decode_udp(bytes))
    }

    /// One turn of the receiving loop.
    pub fn step(event: ReceiverEvent) -> (action: ReceiverAction)
        ensures
            action@ == receiver_action(event@),
    {
        match event {
            ReceiverEvent::Datagram(bytes, client) => {
                match OscReceiver::receive(bytes.as_slice()) {
                    Ok(packet) => ReceiverAction::Deliver(
                        OscReceiver::deliver_response(
                            OscReceiver::handle_packet(packet, Some(client)),
                        ),
                    ),
                    Err(error) => ReceiverAction::Fail(error),
                }
            },
            ReceiverEvent::SocketFailed => ReceiverAction::Fail(ReceiveError::NoDatagram),
            ReceiverEvent::Interrupted => ReceiverAction::Yield,
            ReceiverEvent::Cancelled => ReceiverAction::Finish,
        }
    }
}

/// The side of the endpoint that listens to the player.
pub struct PlayerReceiver {}

impl PlayerReceiver {
    /// Hands a report of the player to the sending side. Where the channel gave
    /// none there is nothing to hand over.
    pub fn forward(report: Option<PlayerMessage>) -> (message: Option<OscOutMessage>)
        ensures
            match report {
                Some(report) => message matches Some(m) && m@ == OscOutMessageView::Player(report@),
                None => message is None,
            },
    {
        match report {
            Some(report) => Some(OscOutMessage::Player(report)),
            None => None,
        }
    }
}

} // verus!
