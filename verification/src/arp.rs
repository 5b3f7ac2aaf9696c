//! The Address Resolution Protocol payload: its layout, a parser, a
//! serializer, and the construction of a reply from a request.
//!
//! Layout, all 16-bit fields in network byte order:
//!
//! | offset        | size | field                                  |
//! |---------------|------|----------------------------------------|
//! | 0             | 2    | hardware address space                 |
//! | 2             | 2    | protocol address space                 |
//! | 4             | 1    | length of a hardware address, `H`      |
//! | 5             | 1    | length of a protocol address, `P`      |
//! | 6             | 2    | opcode (1 = request, 2 = reply)        |
//! | 8             | `H`  | hardware address of the sender         |
//! | 8 + H         | `P`  | protocol address of the sender         |
//! | 8 + H + P     | `H`  | hardware address of the target         |
//! | 8 + 2H + P    | `P`  | protocol address of the target         |

use vstd::prelude::*;
use crate::error::ParseError;
use crate::wire::{
    be16, hi_byte, lo_byte, lemma_be16_of_bytes, lemma_bytes_of_be16, read_be16, write_be16,
};

verus! {

/// Number of bytes before the four addresses.
pub const HEADER_LEN: usize = 8;

/// Opcode of a request.
pub const OPCODE_REQUEST: u16 = 1;

/// Opcode of a reply.
pub const OPCODE_REPLY: u16 = 2;

/// An ARP message as a mathematical value: what an [`Arp`] stands for.
#[verifier::ext_equal]
pub struct ArpMessage {
    pub hw_addr_space: u16,
    pub proto_addr_space: u16,
    pub len_hw_addr: u8,
    pub len_proto_addr: u8,
    pub opcode: u16,
    pub hw_addr_sender: Seq<u8>,
    pub proto_addr_sender: Seq<u8>,
    pub hw_addr_receiver: Seq<u8>,
    pub proto_addr_receiver: Seq<u8>,
}

impl ArpMessage {
    /// Each address has the length that the message declares for its kind.
    pub open spec fn wf(self) -> bool {
        &&& self.hw_addr_sender.len() == self.len_hw_addr
        &&& self.proto_addr_sender.len() == self.len_proto_addr
        &&& self.hw_addr_receiver.len() == self.len_hw_addr
        &&& self.proto_addr_receiver.len() == self.len_proto_addr
    }

    /// The eight bytes in front of the addresses.
    pub open spec fn header(self) -> Seq<u8> {
        seq![
            hi_byte(self.hw_addr_space),
            lo_byte(self.hw_addr_space),
            hi_byte(self.proto_addr_space),
            lo_byte(self.proto_addr_space),
            self.len_hw_addr,
            self.len_proto_addr,
            hi_byte(self.opcode),
            lo_byte(self.opcode),
        ]
    }

    /// The message on the wire: the header, then the sender's hardware and
    /// protocol addresses, then the target's.
    pub open spec fn to_bytes(self) -> Seq<u8> {
        self.header() + self.hw_addr_sender + self.proto_addr_sender + self.hw_addr_receiver
            + self.proto_addr_receiver
    }

    /// Number of bytes that a payload starting like `bytes` must have: the
    /// header, and two addresses of each kind as long as the header says.
    pub open spec fn required_len(bytes: Seq<u8>) -> int {
        if bytes.len() < HEADER_LEN {
            HEADER_LEN as int
        } else {
            HEADER_LEN + 2 * bytes[4] + 2 * bytes[5]
        }
    }

    /// The message that a payload holds, if the payload is long enough.
    /// Bytes after the fourth address are not part of the message. No value
    /// of an address space or of the opcode is refused.
    pub open spec fn of_bytes(bytes: Seq<u8>) -> Option<ArpMessage> {
        if bytes.len() < Self::required_len(bytes) {
            None
        } else {
            let h = bytes[4] as int;
            let p = bytes[5] as int;
            Some(
                ArpMessage {
                    hw_addr_space: be16(bytes[0], bytes[1]),
                    proto_addr_space: be16(bytes[2], bytes[3]),
                    len_hw_addr: bytes[4],
                    len_proto_addr: bytes[5],
                    opcode: be16(bytes[6], bytes[7]),
                    hw_addr_sender: bytes.subrange(8, 8 + h),
                    proto_addr_sender: bytes.subrange(8 + h, 8 + h + p),
                    hw_addr_receiver: bytes.subrange(8 + h + p, 8 + 2 * h + p),
                    proto_addr_receiver: bytes.subrange(8 + 2 * h + p, 8 + 2 * h + 2 * p),
                },
            )
        }
    }

    /// The answer to this message given by the owner of `hw_addr`: a reply
    /// in which the answerer is the sender, under the protocol address that
    /// was asked for, and the asker is the target. The hardware address that
    /// the request named as its target is dropped.
    pub open spec fn reply(self, hw_addr: Seq<u8>) -> ArpMessage {
        ArpMessage {
            hw_addr_space: self.hw_addr_space,
            proto_addr_space: self.proto_addr_space,
            len_hw_addr: self.len_hw_addr,
            len_proto_addr: self.len_proto_addr,
            opcode: OPCODE_REPLY,
            hw_addr_sender: hw_addr,
            proto_addr_sender: self.proto_addr_receiver,
            hw_addr_receiver: self.hw_addr_sender,
            proto_addr_receiver: self.proto_addr_sender,
        }
    }
}

/// What a payload parses to is well formed, and is written back as the
/// bytes it was read from: the first `required_len` bytes of the payload.
pub proof fn lemma_of_bytes_to_bytes(bytes: Seq<u8>)
    ensures
        ArpMessage::of_bytes(bytes) matches Some(m) ==> m.wf() && m.to_bytes()
            == bytes.subrange(0, ArpMessage::required_len(bytes)),
{
    if let Some(m) = ArpMessage::of_bytes(bytes) {
        lemma_bytes_of_be16(bytes[0], bytes[1]);
        lemma_bytes_of_be16(bytes[2], bytes[3]);
        lemma_bytes_of_be16(bytes[6], bytes[7]);
        assert(m.to_bytes() =~= bytes.subrange(0, ArpMessage::required_len(bytes)));
    }
}

/// Writing a well-formed message and parsing the bytes gives the message
/// back.
pub proof fn lemma_to_bytes_of_bytes(m: ArpMessage)
    requires
        m.wf(),
    ensures
        m.to_bytes().len() == HEADER_LEN + 2 * m.len_hw_addr + 2 * m.len_proto_addr,
        ArpMessage::of_bytes(m.to_bytes()) == Some(m),
{
    let bytes = m.to_bytes();
    lemma_be16_of_bytes(m.hw_addr_space);
    lemma_be16_of_bytes(m.proto_addr_space);
    lemma_be16_of_bytes(m.opcode);
    let parsed = ArpMessage::of_bytes(bytes)->0;
    assert(parsed.hw_addr_sender =~= m.hw_addr_sender);
    assert(parsed.proto_addr_sender =~= m.proto_addr_sender);
    assert(parsed.hw_addr_receiver =~= m.hw_addr_receiver);
    assert(parsed.proto_addr_receiver =~= m.proto_addr_receiver);
}

/// The reply to a well-formed request, given with a hardware address of the
/// length that the request declares, is on the wire a message with the
/// request's address spaces and address lengths and the opcode of a reply,
/// whose sender is the answerer under the protocol address that the request
/// asked for, and whose target is the sender of the request.
pub proof fn lemma_reply_exchanges_addresses(request: ArpMessage, hw_addr: Seq<u8>)
    requires
        request.wf(),
        hw_addr.len() == request.len_hw_addr,
    ensures
        ArpMessage::of_bytes(request.reply(hw_addr).to_bytes()) matches Some(reply) && {
            &&& reply.wf()
            &&& reply.hw_addr_space == request.hw_addr_space
            &&& reply.proto_addr_space == request.proto_addr_space
            &&& reply.len_hw_addr == request.len_hw_addr
            &&& reply.len_proto_addr == request.len_proto_addr
            &&& reply.opcode == OPCODE_REPLY
            &&& reply.hw_addr_sender == hw_addr
            &&& reply.proto_addr_sender == request.proto_addr_receiver
            &&& reply.hw_addr_receiver == request.hw_addr_sender
            &&& reply.proto_addr_receiver == request.proto_addr_sender
        },
{
    lemma_to_bytes_of_bytes(request.reply(hw_addr));
}

/// A parsed ARP message. The four addresses are views into the payload it
/// was parsed from; nothing is copied.
#[derive(Clone, Copy, Debug)]
pub struct Arp<'a> {
    hw_addr_space: u16,
    proto_addr_space: u16,
    len_hw_addr: u8,
    len_proto_addr: u8,
    opcode: u16,
    hw_addr_sender: &'a [u8],
    proto_addr_sender: &'a [u8],
    hw_addr_receiver: &'a [u8],
    proto_addr_receiver: &'a [u8],
}

impl<'a> View for Arp<'a> {
    type V = ArpMessage;

    closed spec fn view(&self) -> ArpMessage {
        ArpMessage {
            hw_addr_space: self.hw_addr_space,
            proto_addr_space: self.proto_addr_space,
            len_hw_addr: self.len_hw_addr,
            len_proto_addr: self.len_proto_addr,
            opcode: self.opcode,
            hw_addr_sender: self.hw_addr_sender@,
            proto_addr_sender: self.proto_addr_sender@,
            hw_addr_receiver: self.hw_addr_receiver@,
            proto_addr_receiver: self.proto_addr_receiver@,
        }
    }
}

/// Writes the header and the four addresses, in the order given.
fn assemble(
    hw_addr_space: u16,
    proto_addr_space: u16,
    len_hw_addr: u8,
    len_proto_addr: u8,
    opcode: u16,
    hw_addr_sender: &[u8],
    proto_addr_sender: &[u8],
    hw_addr_receiver: &[u8],
    proto_addr_receiver: &[u8],
) -> (bytes: Vec<u8>)
    ensures
        bytes@ == (ArpMessage {
            hw_addr_space,
            proto_addr_space,
            len_hw_addr,
            len_proto_addr,
            opcode,
            hw_addr_sender: hw_addr_sender@,
            proto_addr_sender: proto_addr_sender@,
            hw_addr_receiver: hw_addr_receiver@,
            proto_addr_receiver: proto_addr_receiver@,
        }).to_bytes(),
{
    let hw = write_be16(hw_addr_space);
    let proto = write_be16(proto_addr_space);
    let op = write_be16(opcode);
    let mut res: Vec<u8> = Vec::new();
    res.push(hw.0);
    res.push(hw.1);
    res.push(proto.0);
    res.push(proto.1);
    res.push(len_hw_addr);
    res.push(len_proto_addr);
    res.push(op.0);
    res.push(op.1);
    res.extend_from_slice(hw_addr_sender);
    res.extend_from_slice(proto_addr_sender);
    res.extend_from_slice(hw_addr_receiver);
    res.extend_from_slice(proto_addr_receiver);
    res
}

impl<'a> Arp<'a> {
    #[verifier::type_invariant]
    spec fn addresses_fit(self) -> bool {
        self@.wf()
    }

    /// Parses an ARP payload.
    ///
    /// Fails with `TruncatedPacket` exactly when the payload is shorter than
    /// the header, or shorter than the header together with the four
    /// addresses whose lengths the header declares. A parsed message is well
    /// formed and stands for the first `required_len` bytes of the payload:
    /// written again, it gives them back.
    pub fn from_slice(slice: &'a [u8]) -> (r: Result<Arp<'a>, ParseError>)
        ensures
            match r {
                Ok(arp) => {
                    &&& ArpMessage::of_bytes(slice@) == Some(arp@)
                    &&& arp@.wf()
                    &&& arp@.to_bytes() == slice@.subrange(0, ArpMessage::required_len(slice@))
                },
                Err(e) => {
                    &&& e == ParseError::TruncatedPacket
                    &&& slice@.len() < ArpMessage::required_len(slice@)
                    &&& ArpMessage::of_bytes(slice@) is None
                },
            },
    {
        proof {
            lemma_of_bytes_to_bytes(slice@);
        }
        if slice.len() < HEADER_LEN {
            return Err(ParseError::TruncatedPacket);
        }
        let len_hw_addr = slice[4];
        let len_proto_addr = slice[5];
        let h: usize = len_hw_addr as usize;
        let p: usize = len_proto_addr as usize;
        if slice.len() < HEADER_LEN + 2 * h + 2 * p {
            return Err(ParseError::TruncatedPacket);
        }
        let hw_addr_space = read_be16(slice[0], slice[1]);
        let proto_addr_space = read_be16(slice[2], slice[3]);
        let opcode = read_be16(slice[6], slice[7]);
        let mut addr_idx: usize = HEADER_LEN;
        let hw_addr_sender = &slice[addr_idx..addr_idx + h];
        addr_idx = addr_idx + h;
        let proto_addr_sender = &slice[addr_idx..addr_idx + p];
        addr_idx = addr_idx + p;
        let hw_addr_receiver = &slice[addr_idx..addr_idx + h];
        addr_idx = addr_idx + h;
        let proto_addr_receiver = &slice[addr_idx..addr_idx + p];

        Ok(
            Arp {
                hw_addr_space,
                proto_addr_space,
                len_hw_addr,
                len_proto_addr,
                opcode,
                hw_addr_sender,
                proto_addr_sender,
                hw_addr_receiver,
                proto_addr_receiver,
            },
        )
    }

    /// Serializes the message: the header, then the four addresses in the
    /// order sender hardware, sender protocol, target hardware, target
    /// protocol. Parsing the result gives this message back.
    pub fn as_bytes(&self) -> (bytes: Vec<u8>)
        ensures
            bytes@ == self@.to_bytes(),
            ArpMessage::of_bytes(bytes@) == Some(self@),
    {
        proof {
            use_type_invariant(self);
            lemma_to_bytes_of_bytes(self@);
        }
        assemble(
            self.hw_addr_space,
            self.proto_addr_space,
            self.len_hw_addr,
            self.len_proto_addr,
            self.opcode,
            self.hw_addr_sender,
            self.proto_addr_sender,
            self.hw_addr_receiver,
            self.proto_addr_receiver,
        )
    }

    /// Serializes the reply to this message that the owner of `hw_addr`
    /// gives: the address spaces and address lengths of this message, the
    /// opcode of a reply, `hw_addr` and the protocol address this message
    /// asks for as the sender, and the sender of this message as the target.
    ///
    /// `hw_addr` is written as it is. Where it has the length that this
    /// message declares for hardware addresses, parsing the result gives
    /// the reply back.
    pub fn response_as_bytes(&self, hw_addr: &[u8]) -> (bytes: Vec<u8>)
        ensures
            bytes@ == self@.reply(hw_addr@).to_bytes(),
            hw_addr@.len() == self@.len_hw_addr ==> ArpMessage::of_bytes(bytes@) == Some(
                self@.reply(hw_addr@),
            ),
    {
        proof {
            use_type_invariant(self);
            if hw_addr@.len() == self@.len_hw_addr {
                lemma_to_bytes_of_bytes(self@.reply(hw_addr@));
            }
        }
        assemble(
            self.hw_addr_space,
            self.proto_addr_space,
            self.len_hw_addr,
            self.len_proto_addr,
            OPCODE_REPLY,
            hw_addr,
            self.proto_addr_receiver,
            self.hw_addr_sender,
            self.proto_addr_sender,
        )
    }
    /// The hardware address space.
    pub fn hw_addr_space(&self) -> (v: u16)
        ensures
            v == self@.hw_addr_space,
    {
        self.hw_addr_space
    }

    /// The protocol address space.
    pub fn proto_addr_space(&self) -> (v: u16)
        ensures
            v == self@.proto_addr_space,
    {
        self.proto_addr_space
    }

    /// The length of a hardware address.
    pub fn len_hw_addr(&self) -> (v: u8)
        ensures
            v == self@.len_hw_addr,
    {
        self.len_hw_addr
    }

    /// The length of a protocol address.
    pub fn len_proto_addr(&self) -> (v: u8)
        ensures
            v == self@.len_proto_addr,
    {
        self.len_proto_addr
    }

    /// The opcode.
    pub fn opcode(&self) -> (v: u16)
        ensures
            v == self@.opcode,
    {
        self.opcode
    }

    /// The hardware address of the sender.
    pub fn hw_addr_sender(&self) -> (v: &'a [u8])
        ensures
            v@ == self@.hw_addr_sender,
            v@.len() == self@.len_hw_addr,
    {
        proof {
            use_type_invariant(self);
        }
        self.hw_addr_sender
    }

    /// The protocol address of the sender.
    pub fn proto_addr_sender(&self) -> (v: &'a [u8])
        ensures
            v@ == self@.proto_addr_sender,
            v@.len() == self@.len_proto_addr,
    {
        proof {
            use_type_invariant(self);
        }
        self.proto_addr_sender
    }

    /// The hardware address of the target.
    pub fn hw_addr_receiver(&self) -> (v: &'a [u8])
        ensures
            v@ == self@.hw_addr_receiver,
            v@.len() == self@.len_hw_addr,
    {
        proof {
            use_type_invariant(self);
        }
        self.hw_addr_receiver
    }

    /// The protocol address of the target.
    pub fn proto_addr_receiver(&self) -> (v: &'a [u8])
        ensures
            v@ == self@.proto_addr_receiver,
            v@.len() == self@.len_proto_addr,
    {
        proof {
            use_type_invariant(self);
        }
        self.proto_addr_receiver
    }
}

} // verus!
