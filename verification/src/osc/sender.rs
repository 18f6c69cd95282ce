//! The sending side: keeps track of the player and of the clients, and decides
//! what is sent to whom.
use vstd::prelude::*;

use crate::net::SocketAddr;
use crate::osc::packet::{OscPacket, OscPacketView};
use crate::osc::state::{OscPlayerState, OscPlayerStateView, StateRequest};
use crate::osc::wire::encode;
use crate::player::{PlayerMessage, PlayerMessageView};

verus! {

/// Something that the sending side is asked to do.
pub enum OscOutMessage {
    /// Announce a report of the player.
    Player(PlayerMessage),
    /// Pass a packet on.
    OscPacket(OscPacket),
    /// Answer a client that asks for a part of the state.
    State(StateRequest, SocketAddr),
    /// Remember a client.
    AddRecipient(SocketAddr),
}

/// The same, with texts as sequences.
pub enum OscOutMessageView {
    Player(PlayerMessageView),
    OscPacket(OscPacketView),
    State(StateRequest, SocketAddr),
    AddRecipient(SocketAddr),
}

impl View for OscOutMessage {
    type V = OscOutMessageView;

    open spec fn view(&self) -> OscOutMessageView {
        match self {
            OscOutMessage::Player(message) => OscOutMessageView::Player(message@),
            OscOutMessage::OscPacket(packet) => OscOutMessageView::OscPacket(packet@),
            OscOutMessage::State(request, from) => OscOutMessageView::State(*request, *from),
            OscOutMessage::AddRecipient(client) => OscOutMessageView::AddRecipient(*client),
        }
    }
}

/// What comes of a message.
pub enum Dispatch {
    /// The packet goes to these clients.
    Send(OscPacket, Vec<SocketAddr>),
    /// There is a packet, but no client is known that it could go to.
    NoRecipient,
    /// There is nothing to send.
    NothingToSend,
}

/// The same, with texts as sequences.
#[verifier::ext_equal]
pub enum DispatchView {
    Send(OscPacketView, Seq<SocketAddr>),
    NoRecipient,
    NothingToSend,
}

impl View for Dispatch {
    type V = DispatchView;

    open spec fn view(&self) -> DispatchView {
        match self {
            Dispatch::Send(packet, clients) => DispatchView::Send(packet@, clients@),
            Dispatch::NoRecipient => DispatchView::NoRecipient,
            Dispatch::NothingToSend => DispatchView::NothingToSend,
        }
    }
}

/// What the sending loop is woken by.
pub enum SenderEvent {
    /// A message has come.
    Message(OscOutMessage),
    /// The channel has no message any more.
    NoMessage,
    /// The endpoint shuts down.
    Cancelled,
}

/// The same, with texts as sequences.
pub enum SenderEventView {
    Message(OscOutMessageView),
    NoMessage,
    Cancelled,
}

impl View for SenderEvent {
    type V = SenderEventView;

    open spec fn view(&self) -> SenderEventView {
        match self {
            SenderEvent::Message(message) => SenderEventView::Message(message@),
            SenderEvent::NoMessage => SenderEventView::NoMessage,
            SenderEvent::Cancelled => SenderEventView::Cancelled,
        }
    }
}

/// What the sending loop does next.
pub enum SenderAction {
    /// Send the bytes to each of these clients, then wait for the next event.
    Transmit(Vec<u8>, Vec<SocketAddr>),
    /// Wait for the next event.
    Wait,
    /// End the loop.
    Finish,
}

/// The same, with sequences.
#[verifier::ext_equal]
pub enum SenderActionView {
    Transmit(Seq<u8>, Seq<SocketAddr>),
    Wait,
    Finish,
}

impl View for SenderAction {
    type V = SenderActionView;

    open spec fn view(&self) -> SenderActionView {
        match self {
            SenderAction::Transmit(bytes, clients) => SenderActionView::Transmit(bytes@, clients@),
            SenderAction::Wait => SenderActionView::Wait,
            SenderAction::Finish => SenderActionView::Finish,
        }
    }
}

/// The sending side of the endpoint.
pub struct OscSender {
    state: OscPlayerState,
    known_recipients: Vec<SocketAddr>,
}

/// The sending side: what is known of the player, and the clients in the order
/// in which they became known.
#[verifier::ext_equal]
pub struct OscSenderView {
    pub state: OscPlayerStateView,
    pub recipients: Seq<SocketAddr>,
}

impl View for OscSender {
    type V = OscSenderView;

    closed spec fn view(&self) -> OscSenderView {
        OscSenderView { state: self.state@, recipients: self.known_recipients@ }
    }
}

/// Before anything was reported or asked.
pub open spec fn fresh_sender() -> OscSenderView {
    OscSenderView { state: crate::osc::state::unknown_player(), recipients: seq![] }
}

/// The clients once `client` is among them.
pub open spec fn with_recipient(
    recipients: Seq<SocketAddr>,
    client: SocketAddr,
) -> Seq<SocketAddr> {
    if recipients.contains(client) {
        recipients
    } else {
        recipients.push(client)
    }
}

/// Where a packet goes that is passed on: to one client, the first that became
/// known.
pub open spec fn passed_on(recipients: Seq<SocketAddr>, packet: OscPacketView) -> DispatchView {
    if recipients.len() > 0 {
        DispatchView::Send(packet, seq![recipients[0]])
    } else {
        DispatchView::NoRecipient
    }
}

/// Where what is told of a report goes: to every client known.
pub open spec fn broadcast(recipients: Seq<SocketAddr>, packet: OscPacketView) -> DispatchView {
    if recipients.len() > 0 {
        DispatchView::Send(packet, recipients)
    } else {
        DispatchView::NoRecipient
    }
}

impl OscSenderView {
    /// No client is held twice.
    pub open spec fn well_formed(self) -> bool {
        self.recipients.no_duplicates()
    }

    /// The sending side after a message.
    pub open spec fn after(self, message: OscOutMessageView) -> OscSenderView {
        match message {
            OscOutMessageView::Player(report) => OscSenderView {
                state: crate::osc::state::state_after(self.state, report),
                ..self
            },
            OscOutMessageView::OscPacket(_) => self,
            OscOutMessageView::State(_, client) => OscSenderView {
                recipients: with_recipient(self.recipients, client),
                ..self
            },
            OscOutMessageView::AddRecipient(client) => OscSenderView {
                recipients: with_recipient(self.recipients, client),
                ..self
            },
        }
    }

    /// What comes of a message.
    pub open spec fn dispatch(self, message: OscOutMessageView) -> DispatchView {
        match message {
            OscOutMessageView::Player(report) => broadcast(
                self.recipients,
                crate::osc::state::announcement(report, self.after(message).state),
            ),
            OscOutMessageView::OscPacket(packet) => passed_on(self.recipients, packet),
            OscOutMessageView::State(request, client) => DispatchView::Send(
                crate::osc::state::answer(request, self.state),
                seq![client],
            ),
            OscOutMessageView::AddRecipient(_) => DispatchView::NothingToSend,
        }
    }

    /// The sending side after a series of messages.
    pub open spec fn after_all(self, messages: Seq<OscOutMessageView>) -> OscSenderView
        decreases messages.len(),
    {
        if messages.len() == 0 {
            self
        } else {
            self.after_all(messages.drop_last()).after(messages.last())
        }
    }

    /// The sending side after an event of the loop.
    pub open spec fn after_event(self, event: SenderEventView) -> OscSenderView {
        match event {
            SenderEventView::Message(message) => self.after(message),
            _ => self,
        }
    }

    /// What the loop does upon an event.
    pub open spec fn action(self, event: SenderEventView) -> SenderActionView {
        match event {
            SenderEventView::Message(message) => transmission(self.dispatch(message)),
            SenderEventView::NoMessage => SenderActionView::Wait,
            SenderEventView::Cancelled => SenderActionView::Finish,
        }
    }
}

/// What the loop does with what came of a message.
pub open spec fn transmission(dispatch: DispatchView) -> SenderActionView {
    match dispatch {
        DispatchView::Send(packet, clients) => SenderActionView::Transmit(
            crate::osc::wire::encoded(packet),
            clients,
        ),
        DispatchView::NoRecipient => SenderActionView::Wait,
        DispatchView::NothingToSend => SenderActionView::Wait,
    }
}

/// A copy of a list of clients.
fn copy_clients(clients: &Vec<SocketAddr>) -> (copy: Vec<SocketAddr>)
    ensures
        copy@ == clients@,
{
    let mut copy: Vec<SocketAddr> = Vec::new();
    for i in 0..clients.len()
        invariant
            copy@ == clients@.take(i as int),
    {
        copy.push(clients[i]);
    }
    copy
}

impl OscSender {
    /// No client is held twice.
    #[verifier::type_invariant]
    spec fn holds_clients_once(self) -> bool {
        self.known_recipients@.no_duplicates()
    }

    /// Nothing was reported or asked yet.
    pub fn new() -> (sender: OscSender)
        ensures
            sender@ == fresh_sender(),
            sender@.well_formed(),
    {
        let sender = OscSender { state: OscPlayerState::new(), known_recipients: Vec::new() };
        assert(sender@ =~= fresh_sender());
        sender
    }

    /// Whether a client is known.
    pub fn knows(&self, client: SocketAddr) -> (known: bool)
        ensures
            known == self@.recipients.contains(client),
    {
        for i in 0..self.known_recipients.len()
            invariant
                forall|j: int| 0 <= j < i ==> self.known_recipients@[j] != client,
        {
            if self.known_recipients[i] == client {
                assert(self.known_recipients@[i as int] == client);
                return true;
            }
        }
        false
    }

    /// Remembers a client.
    fn add_recipient(&mut self, client: SocketAddr)
        ensures
            final(self)@ == (OscSenderView {
                recipients: with_recipient(old(self)@.recipients, client),
                ..old(self)@
            }),
    {
        proof {
            use_type_invariant(&*self);
        }
        if !self.knows(client) {
            let mut clients: Vec<SocketAddr> = copy_clients(&self.known_recipients);
            clients.push(client);
            self.known_recipients = clients;
        }
    }

    /// Addresses a packet that is passed on.
    fn pass_on(&self, packet: OscPacket) -> (dispatch: Dispatch)
        ensures
            dispatch@ == passed_on(self@.recipients, packet@),
    {
        if self.known_recipients.len() > 0 {
            let dispatch = Dispatch::Send(packet, vec![self.known_recipients[0]]);
            assert(dispatch@ =~= passed_on(self@.recipients, packet@));
            dispatch
        } else {
            Dispatch::NoRecipient
        }
    }

    /// Addresses what is told of a report.
    fn address(&self, packet: OscPacket) -> (dispatch: Dispatch)
        ensures
            dispatch@ == broadcast(self@.recipients, packet@),
    {
        if self.known_recipients.len() > 0 {
            Dispatch::Send(packet, copy_clients(&self.known_recipients))
        } else {
            Dispatch::NoRecipient
        }
    }

    /// Takes a message into account and says what comes of it.
    pub fn handle(&mut self, message: OscOutMessage) -> (dispatch: Dispatch)
        ensures
            final(self)@ == old(self)@.after(message@),
            dispatch@ == old(self)@.dispatch(message@),
            old(self)@.well_formed(),
            final(self)@.well_formed(),
    {
        proof {
            use_type_invariant(&*self);
        }
        match message {
            OscOutMessage::Player(report) => {
                let mut state = OscPlayerState::new();
                std::mem::swap(&mut state, &mut self.state);
                state.set_state(&report);
                self.state = state;
                self.address(self.state.response_for_player_message(report))
            },
            OscOutMessage::OscPacket(packet) => self.pass_on(packet),
            OscOutMessage::State(request, client) => {
                self.add_recipient(client);
                let dispatch = Dispatch::Send(
                    self.state.response_for_state_request(request),
                    vec![client],
                );
                assert(dispatch@ =~= old(self)@.dispatch(message@));
                dispatch
            },
            OscOutMessage::AddRecipient(client) => {
                self.add_recipient(client);
                Dispatch::NothingToSend
            },
        }
    }

    /// One turn of the sending loop.
    pub fn step(&mut self, event: SenderEvent) -> (action: SenderAction)
        ensures
            final(self)@ == old(self)@.after_event(event@),
            action@ == old(self)@.action(event@),
            old(self)@.well_formed(),
            final(self)@.well_formed(),
            event@ matches SenderEventView::Message(message) ==> match old(self)@.dispatch(
                message,
            ) {
                DispatchView::Send(packet, _) => crate::osc::wire::wire_message(packet)
                    ==> crate::osc::wire::reads_back(crate::osc::wire::encoded(packet), packet),
                _ => true,
            },
    {
        proof {
            use_type_invariant(&*self);
        }
        match event {
            SenderEvent::Message(message) => match self.handle(message) {
                Dispatch::Send(packet, clients) => SenderAction::Transmit(encode(packet), clients),
                Dispatch::NoRecipient => SenderAction::Wait,
                Dispatch::NothingToSend => SenderAction::Wait,
            },
            SenderEvent::NoMessage => SenderAction::Wait,
            SenderEvent::Cancelled => SenderAction::Finish,
        }
    }
}

} // verus!
