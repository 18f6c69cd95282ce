//! OSC packets on the wire.
use vstd::prelude::*;

use crate::osc::packet::{OscArg, OscArgView, OscMessage, OscPacket, OscPacketView};

verus! {

/// An error of the codec.
#[verifier::external_type_specification]
#[verifier::external_body]
pub struct ExOscError(::rosc::OscError);

/// What `rosc::decoder::decode_udp` makes of a datagram: the packet at its start
/// and the number of bytes behind it, or an error.
pub uninterp spec fn decoded(bytes: Seq<u8>) -> Result<(OscPacketView, nat), ::rosc::OscError>;

/// What `rosc::encoder::encode` makes of a packet.
pub uninterp spec fn encoded(packet: OscPacketView) -> Seq<u8>;

/// Whether a text can be written to the wire, where a zero byte ends a text.
pub open spec fn wire_text(text: Seq<char>) -> bool {
    !text.contains('\0')
}

/// Whether a packet is a message of text and truth values that can be written to
/// the wire and read back: its address starts with a slash, and none of its
/// texts holds the character that ends a text on the wire.
pub open spec fn wire_message(packet: OscPacketView) -> bool {
    &&& packet matches OscPacketView::Message(message)
    &&& message.addr.len() > 0
    &&& message.addr[0] == '/'
    &&& wire_text(message.addr)
    &&& forall|i: int|
        0 <= i < message.args.len() ==> match #[trigger] message.args[i] {
            OscArgView::String(text) => wire_text(text),
            OscArgView::Bool(_) => true,
            OscArgView::Other(_) => false,
        }
}

/// Whether a datagram is read as this packet, with nothing behind it.
pub open spec fn reads_back(bytes: Seq<u8>, packet: OscPacketView) -> bool {
    decoded(bytes) matches Ok(read) && read == (packet, 0nat)
}

/// Calls `rosc::decoder::decode_udp`, whose result is a function of the bytes:
/// [`decoded`] names it. The packet is handed out with its text and truth values
/// as this library's arguments, and the slice behind it as its length.
#[verifier::external_body]
pub(crate) fn decode_udp(bytes: &[u8]) -> (result: Result<(OscPacket, usize), ::rosc::OscError>)
    ensures
        match result {
            Ok((packet, rest)) => {
                decoded(bytes@) matches Ok(read) && read == (packet@, rest as nat)
            },
            Err(error) => decoded(bytes@) matches Err(named) && named == error,
        },
{
    let (rest, packet) = ::rosc::decoder::decode_udp(bytes)?;
    let packet = match packet {
        ::rosc::OscPacket::Message(m) => OscPacket::Message(OscMessage {
            addr: m.addr,
            args: m.args.into_iter().map(|a| match a {
                ::rosc::OscType::String(s) => OscArg::String(s),
                ::rosc::OscType::Bool(b) => OscArg::Bool(b),
                other => OscArg::Other(other),
            }).collect(),
        }),
        ::rosc::OscPacket::Bundle(b) => OscPacket::Bundle(b),
    };
    Ok((packet, rest.len()))
}

/// Calls `rosc::encoder::encode`, which never fails; its result is a function of
/// the packet, and [`encoded`] names it. A message of text and truth values that
/// [`wire_message`] describes is read back by `rosc::decoder::decode_udp` as it
/// was, with nothing left behind it.
#[verifier::external_body]
pub(crate) fn encode(packet: OscPacket) -> (bytes: Vec<u8>)
    ensures
        bytes@ == encoded(packet@),
        wire_message(packet@) ==> reads_back(bytes@, packet@),
{
    let packet = match packet {
        OscPacket::Message(m) => ::rosc::OscPacket::Message(::rosc::OscMessage {
            addr: m.addr,
            args: m.args.into_iter().map(|a| match a {
                OscArg::String(s) => ::rosc::OscType::String(s),
                OscArg::Bool(b) => ::rosc::OscType::Bool(b),
                OscArg::Other(other) => other,
            }).collect(),
        }),
        OscPacket::Bundle(b) => ::rosc::OscPacket::Bundle(b),
    };
    ::rosc::encoder::encode(&packet).unwrap()
}

} // verus!
