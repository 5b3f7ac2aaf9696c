//! The ICMPv4 echo exchange: recognising an echo request inside an IPv4
//! datagram and building the datagram that answers it.
//!
//! An IPv4 header is at least twenty bytes: the version and the header
//! length in 32-bit words share byte 0, the total length of the datagram is
//! bytes 2 and 3, the time to live byte 8, the protocol byte 9, the source
//! address bytes 12 to 15 and the destination address bytes 16 to 19. An
//! ICMPv4 message starts with its type, its code and a checksum; an echo
//! message goes on with an identifier and a sequence number of two bytes
//! each, and after these eight bytes come the data to be echoed.

use vstd::prelude::*;
use crate::error::ParseError;
use crate::trusted::{slice_icmpv4, slice_ipv4, write_echo_reply};
use crate::wire::be16;

verus! {

/// Protocol number of ICMP.
pub const PROTOCOL_ICMP: u8 = 1;

/// Protocol number of the IP authentication header.
pub const PROTOCOL_AUTH: u8 = 51;

/// ICMPv4 type of an echo reply.
pub const TYPE_ECHO_REPLY: u8 = 0;

/// ICMPv4 type of an echo request.
pub const TYPE_ECHO_REQUEST: u8 = 8;

/// ICMPv4 type of a timestamp request.
pub const TYPE_TIMESTAMP: u8 = 13;

/// ICMPv4 type of a timestamp reply.
pub const TYPE_TIMESTAMP_REPLY: u8 = 14;

/// Time to live of every reply.
pub const REPLY_TTL: u8 = 20;

/// Length of the IPv4 and ICMPv4 headers of a reply together.
pub const REPLY_HEADERS_LEN: usize = 28;

/// The most data that an echo message can carry: what the sixteen bits of
/// the IPv4 total length leave after the two headers.
pub const MAX_ECHO_DATA: usize = 65507;

/// What the responder reads of an IPv4 datagram, as a mathematical value.
#[verifier::ext_equal]
pub struct Ipv4View {
    pub protocol: u8,
    pub source: Seq<u8>,
    pub destination: Seq<u8>,
    pub payload: Seq<u8>,
}

impl Ipv4View {
    /// Length of the header, options included, as byte 0 declares it.
    pub open spec fn header_len(bytes: Seq<u8>) -> int {
        (bytes[0] % 16) * 4
    }

    /// Length of the datagram as the header declares it.
    pub open spec fn total_len(bytes: Seq<u8>) -> int {
        bytes[2] * 256 + bytes[3]
    }

    /// What lies between the header and the declared end of the datagram.
    pub open spec fn body(bytes: Seq<u8>) -> Seq<u8> {
        bytes.subrange(Self::header_len(bytes), Self::total_len(bytes))
    }

    /// Length that an authentication header at the start of `body` declares.
    pub open spec fn auth_len(body: Seq<u8>) -> int {
        (body[1] + 2) * 4
    }

    /// `body` starts with a whole authentication header.
    pub open spec fn auth_fits(body: Seq<u8>) -> bool {
        &&& body.len() >= 12
        &&& body[1] >= 1
        &&& body.len() >= Self::auth_len(body)
    }

    /// `bytes` start with a datagram: version 4, a header of at least five
    /// words that lies within the declared total length, and a total length
    /// within `bytes`; where the protocol is the authentication header, that
    /// header is whole.
    pub open spec fn is_datagram(bytes: Seq<u8>) -> bool {
        &&& bytes.len() >= 20
        &&& bytes[0] / 16 == 4
        &&& bytes[0] % 16 >= 5
        &&& Self::header_len(bytes) <= Self::total_len(bytes) <= bytes.len()
        &&& (bytes[9] == PROTOCOL_AUTH ==> Self::auth_fits(Self::body(bytes)))
    }

    /// The datagram at the start of `bytes`. Its payload is what follows the
    /// header, up to the declared total length, without the authentication
    /// header if there is one. Checksums are not looked at.
    pub open spec fn of_bytes(bytes: Seq<u8>) -> Option<Ipv4View> {
        if Self::is_datagram(bytes) {
            let body = Self::body(bytes);
            Some(
                Ipv4View {
                    protocol: bytes[9],
                    source: bytes.subrange(12, 16),
                    destination: bytes.subrange(16, 20),
                    payload: if bytes[9] == PROTOCOL_AUTH {
                        body.subrange(Self::auth_len(body), body.len() as int)
                    } else {
                        body
                    },
                },
            )
        } else {
            None
        }
    }
}

/// What the responder reads of an ICMPv4 message, as a mathematical value.
#[verifier::ext_equal]
pub enum Icmpv4View {
    EchoRequest { id: u16, seq: u16, data: Seq<u8> },
    EchoReply { id: u16, seq: u16, data: Seq<u8> },
    Other,
}

impl Icmpv4View {
    /// `bytes` are a timestamp message, which has a length of its own.
    pub open spec fn is_timestamp(bytes: Seq<u8>) -> bool {
        (bytes[0] == TYPE_TIMESTAMP || bytes[0] == TYPE_TIMESTAMP_REPLY) && bytes[1] == 0
    }

    /// The message that `bytes` hold: none if they are fewer than eight, or
    /// a timestamp message of a length other than twenty; an echo message
    /// where the type says so and the code is 0.
    pub open spec fn of_bytes(bytes: Seq<u8>) -> Option<Icmpv4View> {
        if bytes.len() < 8 || (Self::is_timestamp(bytes) && bytes.len() != 20) {
            None
        } else if bytes[0] == TYPE_ECHO_REQUEST && bytes[1] == 0 {
            Some(
                Icmpv4View::EchoRequest {
                    id: be16(bytes[4], bytes[5]),
                    seq: be16(bytes[6], bytes[7]),
                    data: bytes.skip(8),
                },
            )
        } else if bytes[0] == TYPE_ECHO_REPLY && bytes[1] == 0 {
            Some(
                Icmpv4View::EchoReply {
                    id: be16(bytes[4], bytes[5]),
                    seq: be16(bytes[6], bytes[7]),
                    data: bytes.skip(8),
                },
            )
        } else {
            Some(Icmpv4View::Other)
        }
    }
}

/// What the responder reads of an IPv4 datagram. The payload is a view into
/// the bytes of the datagram.
#[derive(Clone, Copy, Debug)]
pub(crate) struct Ipv4Packet<'a> {
    pub protocol: u8,
    pub source: [u8; 4],
    pub destination: [u8; 4],
    pub payload: &'a [u8],
}

impl<'a> View for Ipv4Packet<'a> {
    type V = Ipv4View;

    closed spec fn view(&self) -> Ipv4View {
        Ipv4View {
            protocol: self.protocol,
            source: self.source@,
            destination: self.destination@,
            payload: self.payload@,
        }
    }
}

/// What the responder reads of an ICMPv4 message. The data are a view into
/// the bytes of the message.
#[derive(Clone, Copy, Debug)]
pub(crate) enum Icmpv4Message<'a> {
    EchoRequest { id: u16, seq: u16, data: &'a [u8] },
    EchoReply { id: u16, seq: u16, data: &'a [u8] },
    Other,
}

impl<'a> View for Icmpv4Message<'a> {
    type V = Icmpv4View;

    closed spec fn view(&self) -> Icmpv4View {
        match *self {
            Icmpv4Message::EchoRequest { id, seq, data } => Icmpv4View::EchoRequest {
                id,
                seq,
                data: data@,
            },
            Icmpv4Message::EchoReply { id, seq, data } => Icmpv4View::EchoReply {
                id,
                seq,
                data: data@,
            },
            Icmpv4Message::Other => Icmpv4View::Other,
        }
    }
}

/// One echo message with the addresses of the datagram that carries it, as
/// a mathematical value.
#[verifier::ext_equal]
pub struct Echo {
    pub source: Seq<u8>,
    pub destination: Seq<u8>,
    pub id: u16,
    pub seq: u16,
    pub data: Seq<u8>,
}

impl Echo {
    /// The addresses are four bytes long, and the data fit into a datagram
    /// together with the two headers.
    pub open spec fn wf(self) -> bool {
        &&& self.source.len() == 4
        &&& self.destination.len() == 4
        &&& self.data.len() <= MAX_ECHO_DATA
    }

    /// The echo request that `packet` carries: an error where `packet` is no
    /// IPv4 datagram, or says it carries ICMP and holds no ICMPv4 message;
    /// nothing where it carries another protocol or another kind of ICMPv4
    /// message.
    pub open spec fn request_of(packet: Seq<u8>) -> Result<Option<Echo>, ParseError> {
        match Ipv4View::of_bytes(packet) {
            None => Err(ParseError::MalformedIpv4),
            Some(ip) => if ip.protocol != PROTOCOL_ICMP {
                Ok(None)
            } else {
                match Icmpv4View::of_bytes(ip.payload) {
                    None => Err(ParseError::MalformedIcmp),
                    Some(Icmpv4View::EchoRequest { id, seq, data }) => Ok(
                        Some(Echo { source: ip.source, destination: ip.destination, id, seq, data }),
                    ),
                    Some(_) => Ok(None),
                }
            },
        }
    }

    /// The echo reply that `packet` carries, if it carries one.
    pub open spec fn reply_of(packet: Seq<u8>) -> Option<Echo> {
        match Ipv4View::of_bytes(packet) {
            None => None,
            Some(ip) => if ip.protocol != PROTOCOL_ICMP {
                None
            } else {
                match Icmpv4View::of_bytes(ip.payload) {
                    Some(Icmpv4View::EchoReply { id, seq, data }) => Some(
                        Echo { source: ip.source, destination: ip.destination, id, seq, data },
                    ),
                    _ => None,
                }
            },
        }
    }

    /// The same identifier, sequence number and data on the way back: the
    /// two addresses change places.
    pub open spec fn answer(self) -> Echo {
        Echo {
            source: self.destination,
            destination: self.source,
            id: self.id,
            seq: self.seq,
            data: self.data,
        }
    }

    /// The bytes of the datagram that answers this request.
    pub open spec fn reply_datagram(self) -> Seq<u8> {
        echo_reply_datagram(
            self.destination,
            self.source,
            REPLY_TTL,
            self.id,
            self.seq,
            self.data,
        )
    }
}

/// The bytes that `etherparse`'s packet builder writes for an IPv4 datagram
/// from `source` to `destination` with the given time to live, which carries
/// an ICMPv4 echo reply with the given identifier, sequence number and data.
/// The two checksums in it are the builder's work; all other bytes are laid
/// down by [`echo_reply_layout`].
pub uninterp spec fn echo_reply_datagram(
    source: Seq<u8>,
    destination: Seq<u8>,
    ttl: u8,
    id: u16,
    seq: u16,
    data: Seq<u8>,
) -> Seq<u8>;

/// Every byte of an echo reply datagram but the two checksums (bytes 10 and
/// 11 of the IPv4 header, bytes 2 and 3 of the ICMPv4 header): a header of
/// five words without options, no service bits, the length of the whole as
/// total length, identification 0, the flag "don't fragment" and no fragment
/// offset, the time to live, the protocol ICMP and the two addresses; then
/// type 0 and code 0, the identifier, the sequence number, and the data.
pub open spec fn echo_reply_layout(
    packet: Seq<u8>,
    source: Seq<u8>,
    destination: Seq<u8>,
    ttl: u8,
    id: u16,
    seq: u16,
    data: Seq<u8>,
) -> bool {
    &&& packet.len() == REPLY_HEADERS_LEN + data.len()
    &&& packet[0] == 0x45
    &&& packet[1] == 0
    &&& be16(packet[2], packet[3]) == packet.len()
    &&& packet[4] == 0
    &&& packet[5] == 0
    &&& packet[6] == 0x40
    &&& packet[7] == 0
    &&& packet[8] == ttl
    &&& packet[9] == PROTOCOL_ICMP
    &&& packet.subrange(12, 16) == source
    &&& packet.subrange(16, 20) == destination
    &&& packet[20] == TYPE_ECHO_REPLY
    &&& packet[21] == 0
    &&& be16(packet[24], packet[25]) == id
    &&& be16(packet[26], packet[27]) == seq
    &&& packet.skip(28) == data
}

/// What is sent back for `packet`: the datagram answering the echo request
/// it carries; nothing where it carries none; an error where it is
/// malformed.
pub open spec fn response_to(packet: Seq<u8>) -> Result<Option<Seq<u8>>, ParseError> {
    match Echo::request_of(packet) {
        Err(e) => Err(e),
        Ok(None) => Ok(None),
        Ok(Some(request)) => Ok(Some(request.reply_datagram())),
    }
}

/// Bytes laid out as an echo reply are read back as that echo reply: as a
/// datagram between its two addresses that carries an echo reply with its
/// identifier, sequence number and data.
pub proof fn lemma_layout_is_reply(packet: Seq<u8>, echo: Echo, ttl: u8)
    requires
        echo.wf(),
        echo_reply_layout(packet, echo.source, echo.destination, ttl, echo.id, echo.seq, echo.data),
    ensures
        Echo::reply_of(packet) == Some(echo),
{
    assert(Ipv4View::is_datagram(packet));
    let ip = Ipv4View::of_bytes(packet)->0;
    assert(ip.payload =~= packet.skip(20));
    assert(ip.payload.skip(8) =~= packet.skip(28));
    assert(ip.source =~= echo.source);
    assert(ip.destination =~= echo.destination);
}

/// A datagram is answered only if it carries ICMP and the ICMPv4 message in
/// it has the type of an echo request and the code 0: any other type, a
/// destination unreachable for one, gets no reply.
pub proof fn lemma_reply_only_to_echo_request(packet: Seq<u8>)
    requires
        response_to(packet) matches Ok(Some(_)),
    ensures
        Ipv4View::of_bytes(packet) matches Some(ip) && {
            &&& ip.protocol == PROTOCOL_ICMP
            &&& ip.payload.len() >= 8
            &&& ip.payload[0] == TYPE_ECHO_REQUEST
            &&& ip.payload[1] == 0
        },
{
}

/// An echo request found in a datagram. The data are a view into the bytes
/// of the datagram.
#[derive(Clone, Copy, Debug)]
pub struct EchoRequest<'a> {
    source: [u8; 4],
    destination: [u8; 4],
    id: u16,
    seq: u16,
    data: &'a [u8],
}

impl<'a> View for EchoRequest<'a> {
    type V = Echo;

    closed spec fn view(&self) -> Echo {
        Echo {
            source: self.source@,
            destination: self.destination@,
            id: self.id,
            seq: self.seq,
            data: self.data@,
        }
    }
}

impl<'a> EchoRequest<'a> {
    #[verifier::type_invariant]
    spec fn data_fit(self) -> bool {
        self.data@.len() <= MAX_ECHO_DATA
    }

    /// The address the request came from.
    pub fn source(&self) -> (v: [u8; 4])
        ensures
            v@ == self@.source,
    {
        self.source
    }

    /// The address the request was sent to.
    pub fn destination(&self) -> (v: [u8; 4])
        ensures
            v@ == self@.destination,
    {
        self.destination
    }

    /// The identifier.
    pub fn id(&self) -> (v: u16)
        ensures
            v == self@.id,
    {
        self.id
    }

    /// The sequence number.
    pub fn seq(&self) -> (v: u16)
        ensures
            v == self@.seq,
    {
        self.seq
    }

    /// The data to be echoed.
    pub fn data(&self) -> (v: &'a [u8])
        ensures
            v@ == self@.data,
            v@.len() <= MAX_ECHO_DATA,
    {
        proof {
            use_type_invariant(self);
        }
        self.data
    }

    /// Builds the datagram that answers this request: from the address the
    /// request was sent to, to the address it came from, with a time to live
    /// of [`REPLY_TTL`] and fresh checksums, carrying an echo reply with the
    /// request's identifier, sequence number and data.
    ///
    /// The checksums are computed by `etherparse`; this contract lays down
    /// every other byte, and says that the datagram is read back as the
    /// echo reply to this request.
    pub fn reply(&self) -> (packet: Vec<u8>)
        ensures
            packet@ == self@.reply_datagram(),
            echo_reply_layout(
                packet@,
                self@.destination,
                self@.source,
                REPLY_TTL,
                self@.id,
                self@.seq,
                self@.data,
            ),
            Echo::reply_of(packet@) == Some(self@.answer()),
    {
        proof {
            use_type_invariant(self);
        }
        let packet = write_echo_reply(
            self.destination,
            self.source,
            REPLY_TTL,
            self.id,
            self.seq,
            self.data,
        );
        proof {
            lemma_layout_is_reply(packet@, self@.answer(), REPLY_TTL);
        }
        packet
    }
}

/// The responder for IPv4 datagrams.
pub struct Ip {}

impl Ip {
    /// Looks for an echo request in an IPv4 datagram.
    ///
    /// Returns the request if the datagram carries one; nothing if it
    /// carries another protocol than ICMP, or an ICMPv4 message of another
    /// kind; `MalformedIpv4` if the bytes are no IPv4 datagram; and
    /// `MalformedIcmp` if the datagram says it carries ICMP and its payload
    /// is no ICMPv4 message.
    pub fn echo_request<'a>(packet: &'a [u8]) -> (r: Result<Option<EchoRequest<'a>>, ParseError>)
        ensures
            match r {
                Ok(Some(request)) => Echo::request_of(packet@) == Ok::<Option<Echo>, ParseError>(
                    Some(request@),
                ) && request@.wf(),
                Ok(None) => Echo::request_of(packet@) == Ok::<Option<Echo>, ParseError>(None),
                Err(e) => Echo::request_of(packet@) == Err::<Option<Echo>, ParseError>(e),
            },
    {
        let ip = match slice_ipv4(packet) {
            Ok(ip) => ip,
            Err(_) => {
                return Err(ParseError::MalformedIpv4);
            },
        };
        if ip.protocol != PROTOCOL_ICMP {
            return Ok(None);
        }
        match slice_icmpv4(ip.payload) {
            Err(_) => Err(ParseError::MalformedIcmp),
            Ok(Icmpv4Message::EchoRequest { id, seq, data }) => {
                Ok(
                    Some(
                        EchoRequest { source: ip.source, destination: ip.destination, id, seq, data },
                    ),
                )
            },
            Ok(_) => Ok(None),
        }
    }

    /// Answers an IPv4 datagram.
    ///
    /// Returns the datagram that answers the echo request in `ether_payload`
    /// if there is one, nothing if `ether_payload` is a datagram without an
    /// echo request, and an error if it is malformed. In the answer the
    /// identifier, the sequence number and the data are those of the
    /// request, and the two addresses have changed places.
    pub fn on_packet(ether_payload: &[u8]) -> (r: Result<Option<Vec<u8>>, ParseError>)
        ensures
            match r {
                Ok(Some(reply)) => {
                    &&& response_to(ether_payload@) == Ok::<Option<Seq<u8>>, ParseError>(
                        Some(reply@),
                    )
                    &&& Echo::request_of(ether_payload@) matches Ok(Some(request))
                    &&& echo_reply_layout(
                        reply@,
                        request.destination,
                        request.source,
                        REPLY_TTL,
                        request.id,
                        request.seq,
                        request.data,
                    )
                    &&& Echo::reply_of(reply@) == Some(request.answer())
                },
                Ok(None) => response_to(ether_payload@) == Ok::<Option<Seq<u8>>, ParseError>(None),
                Err(e) => response_to(ether_payload@) == Err::<Option<Seq<u8>>, ParseError>(e),
            },
    {
        match Ip::echo_request(ether_payload) {
            Err(e) => Err(e),
            Ok(None) => Ok(None),
            Ok(Some(request)) => Ok(Some(request.reply())),
        }
    }
}

} // verus!
