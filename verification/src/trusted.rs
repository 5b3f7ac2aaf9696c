//! What this crate takes from `etherparse`.
//!
//! Every function in this module is a thin call into `etherparse` whose
//! contract is trusted: Verus takes it as given and does not look at the
//! body. Each contract restates, over this crate's own models, what the
//! source of `etherparse` 0.21 does.

use vstd::prelude::*;
use etherparse::{Icmpv4Type, PacketBuilder};
use crate::ethernet::{EthernetFrame, FrameView};
use crate::ip::{
    echo_reply_datagram, echo_reply_layout, Icmpv4Message, Icmpv4View, Ipv4Packet, Ipv4View,
    MAX_ECHO_DATA,
};
use crate::wire::be16_bytes;

verus! {

/// `etherparse::err::LenError`, carried through unread.
#[verifier::external_type_specification]
#[verifier::external_body]
pub struct ExLenError(etherparse::err::LenError);

/// Calls `etherparse::Ethernet2Slice::from_slice_without_fcs` and reads the
/// two addresses, the EtherType and the payload off the slice.
///
/// Trusted: the call succeeds exactly on fourteen bytes or more; the
/// destination is then bytes 0 to 5, the source bytes 6 to 11, the EtherType
/// bytes 12 and 13 in network byte order, and the payload all that follows.
#[verifier::external_body]
pub(crate) fn slice_ethernet2<'a>(bytes: &'a [u8]) -> (r: Result<
    EthernetFrame<'a>,
    etherparse::err::LenError,
>)
    ensures
        match r {
            Ok(frame) => FrameView::of_bytes(bytes@) == Some(frame@),
            Err(_) => FrameView::of_bytes(bytes@) is None,
        },
{
    let slice = etherparse::Ethernet2Slice::from_slice_without_fcs(bytes)?;
    Ok(
        EthernetFrame {
            destination: slice.destination(),
            source: slice.source(),
            ether_type: slice.ether_type().0,
            payload: slice.payload_slice(),
        },
    )
}

/// Calls `etherparse::Ethernet2Header::to_bytes` on a header with the given
/// fields.
///
/// Trusted: the fourteen bytes are the destination, the source, and the
/// EtherType in network byte order.
#[verifier::external_body]
pub(crate) fn ethernet2_header_bytes(source: [u8; 6], destination: [u8; 6], ether_type: u16) -> (bytes:
    [u8; 14])
    ensures
        bytes@ == destination@ + source@ + be16_bytes(ether_type),
{
    etherparse::Ethernet2Header {
        source,
        destination,
        ether_type: etherparse::EtherType(ether_type),
    }.to_bytes()
}

/// `etherparse::err::ipv4::SliceError`, carried through unread.
#[verifier::external_type_specification]
#[verifier::external_body]
pub struct ExIpv4SliceError(etherparse::err::ipv4::SliceError);

/// Calls `etherparse::Ipv4Slice::from_slice` and reads the protocol and the
/// two addresses off the header, and the payload off the slice.
///
/// Trusted: the call succeeds exactly on bytes that `Ipv4View::is_datagram`
/// accepts, and what is read is then what `Ipv4View::of_bytes` says.
#[verifier::external_body]
pub(crate) fn slice_ipv4<'a>(bytes: &'a [u8]) -> (r: Result<
    Ipv4Packet<'a>,
    etherparse::err::ipv4::SliceError,
>)
    ensures
        match r {
            Ok(packet) => Ipv4View::of_bytes(bytes@) == Some(packet@),
            Err(_) => Ipv4View::of_bytes(bytes@) is None,
        },
{
    let slice = etherparse::Ipv4Slice::from_slice(bytes)?;
    let header = slice.header();
    Ok(
        Ipv4Packet {
            protocol: header.protocol().0,
            source: header.source(),
            destination: header.destination(),
            payload: slice.payload().payload,
        },
    )
}

/// Calls `etherparse::Icmpv4Header::from_slice` and keeps, of an echo
/// message, the identifier, the sequence number and the bytes after the
/// header.
///
/// Trusted: the call fails exactly on fewer than eight bytes and on a
/// timestamp message that is not twenty bytes long; the decoded type is an
/// echo request or reply exactly where `Icmpv4View::of_bytes` says so.
#[verifier::external_body]
pub(crate) fn slice_icmpv4<'a>(bytes: &'a [u8]) -> (r: Result<
    Icmpv4Message<'a>,
    etherparse::err::LenError,
>)
    ensures
        match r {
            Ok(message) => Icmpv4View::of_bytes(bytes@) == Some(message@),
            Err(_) => Icmpv4View::of_bytes(bytes@) is None,
        },
{
    let (header, data) = etherparse::Icmpv4Header::from_slice(bytes)?;
    Ok(match header.icmp_type {
        Icmpv4Type::EchoRequest(echo) => Icmpv4Message::EchoRequest { id: echo.id, seq: echo.seq, data },
        Icmpv4Type::EchoReply(echo) => Icmpv4Message::EchoReply { id: echo.id, seq: echo.seq, data },
        _ => Icmpv4Message::Other,
    })
}

/// Calls `etherparse::PacketBuilder::ipv4`, then `icmpv4_echo_reply`, `size`
/// and `write` on the builder, with a `Vec` as the writer.
///
/// Trusted: with data of at most 65507 bytes the payload length fits the
/// IPv4 header, so that `write` succeeds; what it writes depends on the
/// arguments alone, and is laid out as `echo_reply_layout` says, the two
/// checksums apart.
#[verifier::external_body]
pub(crate) fn write_echo_reply(
    source: [u8; 4],
    destination: [u8; 4],
    ttl: u8,
    id: u16,
    seq: u16,
    data: &[u8],
) -> (packet: Vec<u8>)
    requires
        data@.len() <= MAX_ECHO_DATA,
    ensures
        packet@ == echo_reply_datagram(source@, destination@, ttl, id, seq, data@),
        echo_reply_layout(packet@, source@, destination@, ttl, id, seq, data@),
{
    let builder = PacketBuilder::ipv4(source, destination, ttl).icmpv4_echo_reply(id, seq);
    let mut packet = Vec::with_capacity(builder.size(data.len()));
    builder.write(&mut packet, data).expect("the data fit into one datagram");
    packet
}

} // verus!
