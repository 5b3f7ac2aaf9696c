//! The Ethernet II frame without frame check sequence: six bytes of
//! destination address, six bytes of source address, the EtherType in
//! network byte order, then the payload.

use vstd::prelude::*;
use crate::error::ParseError;
use crate::trusted::{ethernet2_header_bytes, slice_ethernet2};
use crate::wire::{be16, be16_bytes, lemma_be16_of_bytes, lemma_bytes_of_be16};

verus! {

/// Number of bytes in front of the payload.
pub const HEADER_LEN: usize = 14;

/// EtherType of an IPv4 datagram.
pub const ETHER_TYPE_IPV4: u16 = 0x0800;

/// EtherType of an ARP message.
pub const ETHER_TYPE_ARP: u16 = 0x0806;

/// EtherType of an IPv6 datagram.
pub const ETHER_TYPE_IPV6: u16 = 0x86DD;

/// An Ethernet II frame as a mathematical value.
#[verifier::ext_equal]
pub struct FrameView {
    pub destination: Seq<u8>,
    pub source: Seq<u8>,
    pub ether_type: u16,
    pub payload: Seq<u8>,
}

impl FrameView {
    /// Both addresses are six bytes long.
    pub open spec fn wf(self) -> bool {
        &&& self.destination.len() == 6
        &&& self.source.len() == 6
    }

    /// The frame that `bytes` hold, if they hold a whole header.
    pub open spec fn of_bytes(bytes: Seq<u8>) -> Option<FrameView> {
        if bytes.len() < HEADER_LEN {
            None
        } else {
            Some(
                FrameView {
                    destination: bytes.subrange(0, 6),
                    source: bytes.subrange(6, 12),
                    ether_type: be16(bytes[12], bytes[13]),
                    payload: bytes.subrange(14, bytes.len() as int),
                },
            )
        }
    }

    /// The fourteen bytes in front of the payload.
    pub open spec fn header(self) -> Seq<u8> {
        self.destination + self.source + be16_bytes(self.ether_type)
    }

    /// The frame on the wire.
    pub open spec fn to_bytes(self) -> Seq<u8> {
        self.header() + self.payload
    }

    /// The frame that carries `payload` back to where this frame came from:
    /// its source is the address this frame was sent to, its destination is
    /// the sender of this frame, and the EtherType is kept.
    pub open spec fn answer(self, payload: Seq<u8>) -> FrameView {
        FrameView {
            destination: self.source,
            source: self.destination,
            ether_type: self.ether_type,
            payload,
        }
    }
}

/// Writing a well-formed frame and parsing the bytes gives the frame back.
pub proof fn lemma_to_bytes_of_bytes(frame: FrameView)
    requires
        frame.wf(),
    ensures
        FrameView::of_bytes(frame.to_bytes()) == Some(frame),
{
    let bytes = frame.to_bytes();
    lemma_be16_of_bytes(frame.ether_type);
    let parsed = FrameView::of_bytes(bytes)->0;
    assert(parsed.destination =~= frame.destination);
    assert(parsed.source =~= frame.source);
    assert(parsed.payload =~= frame.payload);
}

/// A parsed frame is well formed, and is written back as the bytes it was
/// read from.
pub proof fn lemma_of_bytes_to_bytes(bytes: Seq<u8>)
    ensures
        FrameView::of_bytes(bytes) matches Some(frame) ==> frame.wf() && frame.to_bytes() == bytes,
{
    if let Some(frame) = FrameView::of_bytes(bytes) {
        lemma_bytes_of_be16(bytes[12], bytes[13]);
        assert(frame.to_bytes() =~= bytes);
    }
}

/// Whatever payload is sent in answer to a frame, the answering frame on the
/// wire has as its source the destination of the frame answered, as its
/// destination that frame's source, and that frame's EtherType.
pub proof fn lemma_answer_swaps_addresses(bytes: Seq<u8>, payload: Seq<u8>)
    requires
        FrameView::of_bytes(bytes) is Some,
    ensures
        ({
            let inbound = FrameView::of_bytes(bytes)->0;
            FrameView::of_bytes(inbound.answer(payload).to_bytes()) matches Some(outbound) && {
                &&& outbound.source == inbound.destination
                &&& outbound.destination == inbound.source
                &&& outbound.ether_type == inbound.ether_type
                &&& outbound.payload == payload
            }
        }),
{
    let inbound = FrameView::of_bytes(bytes)->0;
    lemma_to_bytes_of_bytes(inbound.answer(payload));
}

/// A parsed Ethernet II frame. The payload is a view into the bytes the
/// frame was parsed from.
#[derive(Clone, Copy, Debug)]
pub struct EthernetFrame<'a> {
    pub destination: [u8; 6],
    pub source: [u8; 6],
    pub ether_type: u16,
    pub payload: &'a [u8],
}

impl<'a> View for EthernetFrame<'a> {
    type V = FrameView;

    open spec fn view(&self) -> FrameView {
        FrameView {
            destination: self.destination@,
            source: self.source@,
            ether_type: self.ether_type,
            payload: self.payload@,
        }
    }
}

impl<'a> EthernetFrame<'a> {
    /// Parses a frame. Fails with `TruncatedPacket` exactly when `bytes` are
    /// fewer than a header. A parsed frame is all of `bytes`: written again,
    /// it gives them back.
    pub fn from_slice(bytes: &'a [u8]) -> (r: Result<EthernetFrame<'a>, ParseError>)
        ensures
            match r {
                Ok(frame) => FrameView::of_bytes(bytes@) == Some(frame@) && frame@.to_bytes()
                    == bytes@,
                Err(e) => e == ParseError::TruncatedPacket && bytes@.len() < HEADER_LEN,
            },
    {
        proof {
            lemma_of_bytes_to_bytes(bytes@);
        }
        match slice_ethernet2(bytes) {
            Ok(frame) => Ok(frame),
            Err(_) => Err(ParseError::TruncatedPacket),
        }
    }

    /// Builds the frame that carries `payload` back to the sender of this
    /// frame.
    pub fn reply(&self, payload: &[u8]) -> (bytes: Vec<u8>)
        ensures
            bytes@ == self@.answer(payload@).to_bytes(),
    {
        let header = ethernet2_header_bytes(self.destination, self.source, self.ether_type);
        let mut resp: Vec<u8> = Vec::new();
        resp.extend_from_slice(&header);
        resp.extend_from_slice(payload);
        resp
    }
}

} // verus!
