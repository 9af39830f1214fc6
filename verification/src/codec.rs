//! The boundary to the OSC codec.
//!
//! Packets are values of the `rosc` crate, whose types are plain trees with
//! public fields: the relay reads them as they are. Decoding and encoding are
//! the crate's work. The two functions below call it, and each states, without
//! proof, what the crate hands back.

use vstd::prelude::*;
use rosc::{OscError, OscPacket};

verus! {

/// `rosc::OscPacket`: a message or a bundle. Its variants are read as the crate
/// defines them.
#[verifier::external_type_specification]
pub struct ExOscPacket(rosc::OscPacket);

/// `rosc::OscMessage`: an address and arguments, both public fields.
#[verifier::external_type_specification]
pub struct ExOscMessage(rosc::OscMessage);

/// `rosc::OscBundle`: a time tag and the packets it contains, both public fields.
#[verifier::external_type_specification]
pub struct ExOscBundle(rosc::OscBundle);

/// `rosc::OscType`: one argument of a message. The relay tells `Int` from the
/// other variants and reads nothing else of it.
#[verifier::external_type_specification]
pub struct ExOscType(rosc::OscType);

/// `rosc::OscTime`, which `rosc::OscType` and `rosc::OscBundle` hold.
#[verifier::external_type_specification]
pub struct ExOscTime(rosc::OscTime);

/// `rosc::OscColor`, which `rosc::OscType` holds.
#[verifier::external_type_specification]
pub struct ExOscColor(rosc::OscColor);

/// `rosc::OscMidiMessage`, which `rosc::OscType` holds.
#[verifier::external_type_specification]
pub struct ExOscMidiMessage(rosc::OscMidiMessage);

/// `rosc::OscArray`, which `rosc::OscType` holds.
#[verifier::external_type_specification]
pub struct ExOscArray(rosc::OscArray);

/// `rosc::OscError`: why a datagram did not decode. The relay hands it on
/// unread.
#[verifier::external_type_specification]
#[verifier::external_body]
pub struct ExOscError(rosc::OscError);

/// The packet that `rosc::decoder::decode_udp` reads from the front of a
/// datagram, or `None` where it reports an error.
pub uninterp spec fn decoding(datagram: Seq<u8>) -> Option<OscPacket>;

/// The bytes that `rosc::encoder::encode` writes for a packet.
pub uninterp spec fn encoding(packet: OscPacket) -> Seq<u8>;

/// Calls `rosc::decoder::decode_udp` and drops the bytes that follow the
/// packet. Whether the call succeeds, and with which packet, depends on the
/// datagram alone and is named by [`decoding`]; nothing more is claimed of it.
#[verifier::external_body]
pub(crate) fn decode_udp(datagram: &[u8]) -> (r: Result<OscPacket, OscError>)
    ensures
        r is Ok ==> decoding(datagram@) == Some(r->Ok_0),
        r is Err ==> decoding(datagram@) is None,
{
    rosc::decoder::decode_udp(datagram).map(|(_, packet)| packet)
}

/// Calls `rosc::encoder::encode`. The encoder writes into a vector, which
/// cannot fail, so the call always succeeds; the bytes depend on the packet
/// alone and are named by [`encoding`].
#[verifier::external_body]
pub(crate) fn encode(packet: &OscPacket) -> (r: Result<Vec<u8>, OscError>)
    ensures
        r is Ok,
        r->Ok_0@ == encoding(*packet),
{
    rosc::encoder::encode(packet)
}

/// Decodes a datagram.
pub fn decode_datagram(datagram: &[u8]) -> (r: Result<OscPacket, OscError>)
    ensures
        r is Ok <==> decoding(datagram@) is Some,
        r is Ok ==> decoding(datagram@) == Some(r->Ok_0),
{
    decode_udp(datagram)
}

/// Encodes a packet.
pub fn encode_packet(packet: &OscPacket) -> (bytes: Vec<u8>)
    ensures
        bytes@ == encoding(*packet),
{
    match encode(packet) {
        Ok(bytes) => bytes,
        Err(_) => unreached(),
    }
}

} // verus!
