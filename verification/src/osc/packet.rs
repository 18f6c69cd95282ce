//! OSC packets.
//!
//! The endpoint reads the address of a message and writes text and truth
//! values; everything else a client may send is carried as the codec gives it.
use vstd::prelude::*;

verus! {

/// A value of the codec's argument type.
#[verifier::external_type_specification]
#[verifier::external_body]
pub struct ExOscType(::rosc::OscType);

/// A value of the codec's bundle type.
#[verifier::external_type_specification]
#[verifier::external_body]
pub struct ExOscBundle(::rosc::OscBundle);

/// An argument of an OSC message.
pub enum OscArg {
    /// Text.
    String(String),
    /// A truth value.
    Bool(bool),
    /// An argument of any other kind, which is only passed on.
    Other(::rosc::OscType),
}

/// An argument, with its text as a sequence of characters.
pub enum OscArgView {
    String(Seq<char>),
    Bool(bool),
    Other(::rosc::OscType),
}

impl View for OscArg {
    type V = OscArgView;

    open spec fn view(&self) -> OscArgView {
        match self {
            OscArg::String(s) => OscArgView::String(s@),
            OscArg::Bool(b) => OscArgView::Bool(*b),
            OscArg::Other(o) => OscArgView::Other(*o),
        }
    }
}

/// A message: an address and its arguments.
pub struct OscMessage {
    pub addr: String,
    pub args: Vec<OscArg>,
}

/// A message, as sequences.
#[verifier::ext_equal]
pub struct OscMessageView {
    pub addr: Seq<char>,
    pub args: Seq<OscArgView>,
}

impl View for OscMessage {
    type V = OscMessageView;

    open spec fn view(&self) -> OscMessageView {
        OscMessageView { addr: self.addr@, args: self.args@.map_values(|a: OscArg| a@) }
    }
}

/// A packet: a message, or a bundle, which is only passed on.
pub enum OscPacket {
    Message(OscMessage),
    Bundle(::rosc::OscBundle),
}

/// A packet, with its message as sequences.
#[verifier::ext_equal]
pub enum OscPacketView {
    Message(OscMessageView),
    Bundle(::rosc::OscBundle),
}

impl View for OscPacket {
    type V = OscPacketView;

    open spec fn view(&self) -> OscPacketView {
        match self {
            OscPacket::Message(m) => OscPacketView::Message(m@),
            OscPacket::Bundle(b) => OscPacketView::Bundle(*b),
        }
    }
}

/// The packet that holds one message with text arguments.
pub open spec fn text_message(addr: Seq<char>, args: Seq<Seq<char>>) -> OscPacketView {
    OscPacketView::Message(
        OscMessageView { addr, args: args.map_values(|a: Seq<char>| OscArgView::String(a)) },
    )
}

/// The packet that holds one message with a single truth value.
pub open spec fn bool_message(addr: Seq<char>, arg: bool) -> OscPacketView {
    OscPacketView::Message(OscMessageView { addr, args: seq![OscArgView::Bool(arg)] })
}

} // verus!
