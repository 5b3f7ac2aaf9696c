//! The dispatch of one inbound frame: which protocol it carries, whether it
//! is answered, and the frame that answers it.

use vstd::prelude::*;
use crate::arp::{Arp, ArpMessage, OPCODE_REQUEST};
use crate::error::ParseError;
use crate::ethernet::{
    lemma_answer_swaps_addresses, EthernetFrame, FrameView, ETHER_TYPE_ARP, ETHER_TYPE_IPV4,
    ETHER_TYPE_IPV6,
};
use crate::ip::{response_to, Ip};
use crate::wire::be16;

verus! {

/// What is to be done about one inbound frame.
#[derive(Debug, PartialEq, Eq)]
pub enum Dispatch {
    /// Send this frame.
    Reply(Vec<u8>),
    /// Send nothing: the frame is of a kind that is known and not answered.
    NoReply,
    /// Send nothing: the frame carries a protocol that the router does not
    /// know. The fields are those of the frame, for a diagnostic.
    Unknown { source: [u8; 6], destination: [u8; 6], ether_type: u16 },
}

/// A [`Dispatch`] as a mathematical value.
#[verifier::ext_equal]
pub enum DispatchView {
    Reply(Seq<u8>),
    NoReply,
    Unknown { source: Seq<u8>, destination: Seq<u8>, ether_type: u16 },
}

impl View for Dispatch {
    type V = DispatchView;

    open spec fn view(&self) -> DispatchView {
        match *self {
            Dispatch::Reply(frame) => DispatchView::Reply(frame@),
            Dispatch::NoReply => DispatchView::NoReply,
            Dispatch::Unknown { source, destination, ether_type } => DispatchView::Unknown {
                source: source@,
                destination: destination@,
                ether_type,
            },
        }
    }
}

/// The dispatch of `frame` by a responder whose hardware address is
/// `hw_addr`.
///
/// An ARP request is answered with the reply that `hw_addr` gives, whatever
/// protocol address it asks for; any other ARP message is not answered. An
/// IPv4 datagram is answered where it carries an echo request. IPv6 is not
/// answered. Every answer travels in a frame with the addresses of the
/// inbound frame exchanged and its EtherType kept.
pub open spec fn route(frame: Seq<u8>, hw_addr: Seq<u8>) -> Result<DispatchView, ParseError> {
    match FrameView::of_bytes(frame) {
        None => Err(ParseError::TruncatedPacket),
        Some(inbound) => if inbound.ether_type == ETHER_TYPE_ARP {
            match ArpMessage::of_bytes(inbound.payload) {
                None => Err(ParseError::TruncatedPacket),
                Some(message) => if message.opcode == OPCODE_REQUEST {
                    Ok(
                        DispatchView::Reply(
                            inbound.answer(message.reply(hw_addr).to_bytes()).to_bytes(),
                        ),
                    )
                } else {
                    Ok(DispatchView::NoReply)
                },
            }
        } else if inbound.ether_type == ETHER_TYPE_IPV4 {
            match response_to(inbound.payload) {
                Err(e) => Err(e),
                Ok(None) => Ok(DispatchView::NoReply),
                Ok(Some(datagram)) => Ok(DispatchView::Reply(inbound.answer(datagram).to_bytes())),
            }
        } else if inbound.ether_type == ETHER_TYPE_IPV6 {
            Ok(DispatchView::NoReply)
        } else {
            Ok(
                DispatchView::Unknown {
                    source: inbound.source,
                    destination: inbound.destination,
                    ether_type: inbound.ether_type,
                },
            )
        },
    }
}

/// An ARP message with another opcode than that of a request, a reply for
/// one, is not answered.
pub proof fn lemma_only_arp_requests_answered(frame: Seq<u8>, hw_addr: Seq<u8>)
    requires
        FrameView::of_bytes(frame) matches Some(inbound) && inbound.ether_type == ETHER_TYPE_ARP
            && (ArpMessage::of_bytes(inbound.payload) matches Some(message) && message.opcode
            != OPCODE_REQUEST),
    ensures
        route(frame, hw_addr) == Ok::<DispatchView, ParseError>(DispatchView::NoReply),
{
}

/// Every frame that is sent in answer has as its source the destination of
/// the inbound frame, as its destination the source of the inbound frame,
/// and the EtherType of the inbound frame.
pub proof fn lemma_reply_swaps_addresses(frame: Seq<u8>, hw_addr: Seq<u8>)
    requires
        route(frame, hw_addr) matches Ok(DispatchView::Reply(_)),
    ensures
        ({
            let inbound = FrameView::of_bytes(frame)->0;
            let reply = route(frame, hw_addr)->Ok_0->Reply_0;
            FrameView::of_bytes(reply) matches Some(outbound) && {
                &&& outbound.source == inbound.destination
                &&& outbound.destination == inbound.source
                &&& outbound.ether_type == inbound.ether_type
            }
        }),
{
    let inbound = FrameView::of_bytes(frame)->0;
    if inbound.ether_type == ETHER_TYPE_ARP {
        let message = ArpMessage::of_bytes(inbound.payload)->0;
        lemma_answer_swaps_addresses(frame, message.reply(hw_addr).to_bytes());
    } else {
        let datagram = response_to(inbound.payload)->Ok_0->0;
        lemma_answer_swaps_addresses(frame, datagram);
    }
}

/// The router: a responder with one hardware address, which it gives in
/// answer to every ARP request.
#[derive(Clone, Copy, Debug)]
pub struct FrameRouter {
    pub hw_addr: [u8; 6],
}

impl FrameRouter {
    /// A router that answers ARP requests with `hw_addr`.
    pub fn new(hw_addr: [u8; 6]) -> (router: FrameRouter)
        ensures
            router.hw_addr == hw_addr,
    {
        FrameRouter { hw_addr }
    }

    /// Decides what to do about one inbound frame.
    ///
    /// Fails with `TruncatedPacket` on a frame shorter than its header or
    /// an ARP payload shorter than its addresses, and with the error of the
    /// echo responder on a malformed IPv4 payload.
    pub fn on_frame(&self, frame: &[u8]) -> (r: Result<Dispatch, ParseError>)
        ensures
            match r {
                Ok(dispatch) => route(frame@, self.hw_addr@) == Ok::<DispatchView, ParseError>(
                    dispatch@,
                ),
                Err(e) => route(frame@, self.hw_addr@) == Err::<DispatchView, ParseError>(e),
            },
            r matches Ok(Dispatch::Reply(reply)) ==> FrameView::of_bytes(reply@) matches Some(
                outbound,
            ) && {
                &&& outbound.source == frame@.subrange(0, 6)
                &&& outbound.destination == frame@.subrange(6, 12)
                &&& outbound.ether_type == be16(frame@[12], frame@[13])
            },
    {
        proof {
            if route(frame@, self.hw_addr@) matches Ok(DispatchView::Reply(_)) {
                lemma_reply_swaps_addresses(frame@, self.hw_addr@);
            }
        }
        let inbound = match EthernetFrame::from_slice(frame) {
            Ok(inbound) => inbound,
            Err(e) => {
                return Err(e);
            },
        };
        if inbound.ether_type == ETHER_TYPE_ARP {
            let message = match Arp::from_slice(inbound.payload) {
                Ok(message) => message,
                Err(e) => {
                    return Err(e);
                },
            };
            if message.opcode() != OPCODE_REQUEST {
                return Ok(Dispatch::NoReply);
            }
            let answer = message.response_as_bytes(&self.hw_addr);
            Ok(Dispatch::Reply(inbound.reply(answer.as_slice())))
        } else if inbound.ether_type == ETHER_TYPE_IPV4 {
            match Ip::on_packet(inbound.payload) {
                Err(e) => Err(e),
                Ok(None) => Ok(Dispatch::NoReply),
                Ok(Some(datagram)) => Ok(Dispatch::Reply(inbound.reply(datagram.as_slice()))),
            }
        } else if inbound.ether_type == ETHER_TYPE_IPV6 {
            Ok(Dispatch::NoReply)
        } else {
            Ok(
                Dispatch::Unknown {
                    source: inbound.source,
                    destination: inbound.destination,
                    ether_type: inbound.ether_type,
                },
            )
        }
    }
}

} // verus!
