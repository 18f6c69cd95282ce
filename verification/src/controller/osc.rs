//! Control by OSC messages.
use vstd::prelude::*;

use crate::controller::Event;
use crate::osc::packet::{OscPacket, OscPacketView};
use crate::text::same_text;

verus! {

/// What the driver is woken by.
pub enum DriverEvent {
    /// The channel of packets is closed.
    Closed,
    /// The channel gave a packet, or nothing.
    Received(Option<OscPacket>),
}

/// The same, with texts as sequences.
pub enum DriverEventView {
    Closed,
    Received(Option<OscPacketView>),
}

impl View for DriverEvent {
    type V = DriverEventView;

    open spec fn view(&self) -> DriverEventView {
        match self {
            DriverEvent::Closed => DriverEventView::Closed,
            DriverEvent::Received(Some(packet)) => DriverEventView::Received(Some(packet@)),
            DriverEvent::Received(None) => DriverEventView::Received(None),
        }
    }
}

/// What the driver does next.
#[derive(Clone, Copy, Debug, PartialEq, Eq, Structural)]
pub enum DriverAction {
    /// Tell the player, then wait for the next packet.
    Emit(Event),
    /// No command has this address: wait for the next packet.
    UnknownAddress,
    /// Bundles are not supported: wait for the next packet.
    UnsupportedBundle,
    /// There was no packet: look whether the channel is closed.
    Nothing,
    /// End the loop.
    Finish,
}

/// The address of the message that tells the player to do something.
pub open spec fn command_address(event: Event) -> Seq<char> {
    match event {
        Event::Play => "/driver/play"@,
        Event::Stop => "/driver/stop"@,
        Event::Prev => "/driver/prev"@,
        Event::Next => "/driver/next"@,
        Event::AllSongs => "/driver/all_songs"@,
        Event::Playlist => "/driver/playlist"@,
    }
}

/// What a message to this address tells the player to do.
pub open spec fn address_event(address: Seq<char>) -> Option<Event> {
    if address == "/driver/play"@ {
        Some(Event::Play)
    } else if address == "/driver/stop"@ {
        Some(Event::Stop)
    } else if address == "/driver/prev"@ {
        Some(Event::Prev)
    } else if address == "/driver/next"@ {
        Some(Event::Next)
    } else if address == "/driver/all_songs"@ {
        Some(Event::AllSongs)
    } else if address == "/driver/playlist"@ {
        Some(Event::Playlist)
    } else {
        None
    }
}

/// What the driver does with a packet.
pub open spec fn packet_action(packet: OscPacketView) -> DriverAction {
    match packet {
        OscPacketView::Message(message) => match address_event(message.addr) {
            Some(event) => DriverAction::Emit(event),
            None => DriverAction::UnknownAddress,
        },
        OscPacketView::Bundle(_) => DriverAction::UnsupportedBundle,
    }
}

/// What the driver does upon an event of its loop.
pub open spec fn driver_action(event: DriverEventView) -> DriverAction {
    match event {
        DriverEventView::Closed => DriverAction::Finish,
        DriverEventView::Received(Some(packet)) => packet_action(packet),
        DriverEventView::Received(None) => DriverAction::Nothing,
    }
}

/// What a message to this address tells the player to do, if anything.
pub fn event_for_address(address: &str) -> (event: Option<Event>)
    ensures
        event == address_event(address@),
{
    if same_text(address, "/driver/play") {
        Some(Event::Play)
    } else if same_text(address, "/driver/stop") {
        Some(Event::Stop)
    } else if same_text(address, "/driver/prev") {
        Some(Event::Prev)
    } else if same_text(address, "/driver/next") {
        Some(Event::Next)
    } else if same_text(address, "/driver/all_songs") {
        Some(Event::AllSongs)
    } else if same_text(address, "/driver/playlist") {
        Some(Event::Playlist)
    } else {
        None
    }
}

/// What the driver does with a packet.
pub fn handle_packet(packet: &OscPacket) -> (action: DriverAction)
    ensures
        action == packet_action(packet@),
{
    match packet {
        OscPacket::Message(message) => match event_for_address(message.addr.as_str()) {
            Some(event) => DriverAction::Emit(event),
            None => DriverAction::UnknownAddress,
        },
        OscPacket::Bundle(_) => DriverAction::UnsupportedBundle,
    }
}

/// One turn of the driver's loop.
pub fn step(event: &DriverEvent) -> (action: DriverAction)
    ensures
        action == driver_action(event@),
{
    match event {
        DriverEvent::Closed => DriverAction::Finish,
        DriverEvent::Received(Some(packet)) => handle_packet(packet),
        DriverEvent::Received(None) => DriverAction::Nothing,
    }
}

} // verus!
