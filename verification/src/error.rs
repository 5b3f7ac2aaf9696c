use vstd::prelude::*;

verus! {

/// Why a packet could not be taken apart.
#[derive(Clone, Copy, Debug, PartialEq, Eq, Structural)]
pub enum ParseError {
    /// The bytes at hand are fewer than the lengths declared in the packet
    /// (or than its fixed header) call for.
    TruncatedPacket,
    /// The payload of an IPv4 frame is not a well-formed IPv4 datagram.
    MalformedIpv4,
    /// The payload of an ICMP datagram is not a well-formed ICMPv4 message.
    MalformedIcmp,
}

} // verus!
