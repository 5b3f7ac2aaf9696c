use link_responder::arp::{Arp, HEADER_LEN, OPCODE_REPLY, OPCODE_REQUEST};
use link_responder::error::ParseError;

/// An ARP payload with the given header fields and addresses.
fn payload(
    hw_space: u16,
    proto_space: u16,
    h: u8,
    p: u8,
    opcode: u16,
    addresses: [&[u8]; 4],
) -> Vec<u8> {
    let mut bytes = Vec::new();
    bytes.extend_from_slice(&hw_space.to_be_bytes());
    bytes.extend_from_slice(&proto_space.to_be_bytes());
    bytes.push(h);
    bytes.push(p);
    bytes.extend_from_slice(&opcode.to_be_bytes());
    for address in addresses {
        bytes.extend_from_slice(address);
    }
    bytes
}

/// `n` bytes counting up from `start`.
fn run(start: u8, n: usize) -> Vec<u8> {
    (0..n).map(|i| start.wrapping_add(i as u8)).collect()
}

fn ethernet_ipv4_request() -> Vec<u8> {
    vec![
        0x00, 0x01, 0x08, 0x00, 0x06, 0x04, 0x00, 0x01, // header
        0x11, 0x11, 0x11, 0x11, 0x11, 0x11, // sender hardware
        10, 0, 0, 1, // sender protocol
        0x00, 0x00, 0x00, 0x00, 0x00, 0x00, // target hardware
        10, 0, 0, 2, // target protocol
    ]
}

#[test]
fn constants_are_those_of_the_protocol() {
    assert_eq!(HEADER_LEN, 8);
    assert_eq!(OPCODE_REQUEST, 1);
    assert_eq!(OPCODE_REPLY, 2);
}

#[test]
fn from_slice_reads_every_field() {
    let bytes = ethernet_ipv4_request();
    let arp = Arp::from_slice(&bytes).unwrap();
    assert_eq!(arp.hw_addr_space(), 1);
    assert_eq!(arp.proto_addr_space(), 0x0800);
    assert_eq!(arp.len_hw_addr(), 6);
    assert_eq!(arp.len_proto_addr(), 4);
    assert_eq!(arp.opcode(), 1);
    assert_eq!(arp.hw_addr_sender(), &[0x11, 0x11, 0x11, 0x11, 0x11, 0x11]);
    assert_eq!(arp.proto_addr_sender(), &[10, 0, 0, 1]);
    assert_eq!(arp.hw_addr_receiver(), &[0, 0, 0, 0, 0, 0]);
    assert_eq!(arp.proto_addr_receiver(), &[10, 0, 0, 2]);
}

#[test]
fn from_slice_reads_sixteen_bit_fields_big_endian() {
    let bytes = payload(0x1234, 0xabcd, 0, 0, 0xfe01, [&[], &[], &[], &[]]);
    let arp = Arp::from_slice(&bytes).unwrap();
    assert_eq!(arp.hw_addr_space(), 0x1234);
    assert_eq!(arp.proto_addr_space(), 0xabcd);
    assert_eq!(arp.opcode(), 0xfe01);
}

#[test]
fn request_is_answered_as_the_protocol_says() {
    let bytes = ethernet_ipv4_request();
    let request = Arp::from_slice(&bytes).unwrap();
    let reply_bytes = request.response_as_bytes(&[0x02, 0x02, 0x02, 0x02, 0x02, 0x02]);
    assert_eq!(
        reply_bytes,
        vec![
            0x00, 0x01, 0x08, 0x00, 0x06, 0x04, 0x00, 0x02, // header, opcode 2
            0x02, 0x02, 0x02, 0x02, 0x02, 0x02, // sender hardware: the responder
            10, 0, 0, 2, // sender protocol: what was asked for
            0x11, 0x11, 0x11, 0x11, 0x11, 0x11, // target hardware: the asker
            10, 0, 0, 1, // target protocol: the asker
        ]
    );
    let reply = Arp::from_slice(&reply_bytes).unwrap();
    assert_eq!(reply.hw_addr_space(), 1);
    assert_eq!(reply.proto_addr_space(), 0x0800);
    assert_eq!(reply.len_hw_addr(), 6);
    assert_eq!(reply.len_proto_addr(), 4);
    assert_eq!(reply.opcode(), 2);
    assert_eq!(reply.hw_addr_sender(), &[0x02, 0x02, 0x02, 0x02, 0x02, 0x02]);
    assert_eq!(reply.proto_addr_sender(), &[10, 0, 0, 2]);
    assert_eq!(reply.hw_addr_receiver(), &[0x11, 0x11, 0x11, 0x11, 0x11, 0x11]);
    assert_eq!(reply.proto_addr_receiver(), &[10, 0, 0, 1]);
}

#[test]
fn as_bytes_gives_back_what_was_parsed() {
    let bytes = ethernet_ipv4_request();
    let arp = Arp::from_slice(&bytes).unwrap();
    assert_eq!(arp.as_bytes(), bytes);
}

#[test]
fn as_bytes_is_not_the_reply() {
    let bytes = ethernet_ipv4_request();
    let arp = Arp::from_slice(&bytes).unwrap();
    assert_ne!(arp.as_bytes(), arp.response_as_bytes(&[0x02; 6]));
}

#[test]
fn bytes_after_the_last_address_are_left_out() {
    let mut bytes = ethernet_ipv4_request();
    bytes.extend_from_slice(&[0xee; 18]);
    let arp = Arp::from_slice(&bytes).unwrap();
    assert_eq!(arp.proto_addr_receiver(), &[10, 0, 0, 2]);
    assert_eq!(arp.as_bytes(), ethernet_ipv4_request());
    assert_eq!(arp.response_as_bytes(&[0x02; 6]).len(), 28);
}

#[test]
fn truncated_payloads_are_refused() {
    let bytes = ethernet_ipv4_request();
    // seventeen bytes where the header asks for twenty-eight
    assert_eq!(Arp::from_slice(&bytes[..17]).unwrap_err(), ParseError::TruncatedPacket);
    for len in 0..28 {
        assert_eq!(
            Arp::from_slice(&bytes[..len]).unwrap_err(),
            ParseError::TruncatedPacket,
            "length {}",
            len
        );
    }
    assert!(Arp::from_slice(&bytes[..28]).is_ok());
}

#[test]
fn an_empty_payload_is_truncated() {
    assert_eq!(Arp::from_slice(&[]).unwrap_err(), ParseError::TruncatedPacket);
}

#[test]
fn a_header_alone_is_a_message_without_addresses() {
    let bytes = payload(1, 0x0800, 0, 0, 1, [&[], &[], &[], &[]]);
    assert_eq!(bytes.len(), 8);
    let arp = Arp::from_slice(&bytes).unwrap();
    assert_eq!(arp.len_hw_addr(), 0);
    assert_eq!(arp.len_proto_addr(), 0);
    assert!(arp.hw_addr_sender().is_empty());
    assert!(arp.proto_addr_sender().is_empty());
    assert!(arp.hw_addr_receiver().is_empty());
    assert!(arp.proto_addr_receiver().is_empty());
    assert_eq!(arp.as_bytes(), bytes);
    assert_eq!(arp.response_as_bytes(&[]), vec![0, 1, 8, 0, 0, 0, 0, 2]);
}

#[test]
fn the_longest_addresses_are_parsed() {
    let sha = run(0, 255);
    let spa = run(1, 255);
    let tha = run(2, 255);
    let tpa = run(3, 255);
    let bytes = payload(6, 0x86dd, 255, 255, 1, [&sha, &spa, &tha, &tpa]);
    assert_eq!(bytes.len(), 8 + 4 * 255);
    let arp = Arp::from_slice(&bytes).unwrap();
    assert_eq!(arp.hw_addr_sender(), &sha[..]);
    assert_eq!(arp.proto_addr_sender(), &spa[..]);
    assert_eq!(arp.hw_addr_receiver(), &tha[..]);
    assert_eq!(arp.proto_addr_receiver(), &tpa[..]);
    assert_eq!(arp.as_bytes(), bytes);
    assert_eq!(
        Arp::from_slice(&bytes[..bytes.len() - 1]).unwrap_err(),
        ParseError::TruncatedPacket
    );
}

#[test]
fn unknown_spaces_and_opcodes_pass_through() {
    let bytes = payload(0xffff, 0x1234, 2, 1, 9, [&[1, 2], &[3], &[4, 5], &[6]]);
    let arp = Arp::from_slice(&bytes).unwrap();
    assert_eq!(arp.hw_addr_space(), 0xffff);
    assert_eq!(arp.proto_addr_space(), 0x1234);
    assert_eq!(arp.opcode(), 9);
    assert_eq!(arp.as_bytes(), bytes);
    assert_eq!(
        arp.response_as_bytes(&[7, 8]),
        payload(0xffff, 0x1234, 2, 1, 2, [&[7, 8], &[6], &[1, 2], &[3]])
    );
}

#[test]
fn reply_exchanges_addresses_for_all_lengths() {
    for &h in &[1u8, 2, 4, 6] {
        for &p in &[1u8, 2, 4, 6] {
            let sha = run(0x10, h as usize);
            let spa = run(0x20, p as usize);
            let tha = run(0x30, h as usize);
            let tpa = run(0x40, p as usize);
            let own = run(0x50, h as usize);
            let bytes = payload(1, 0x0800, h, p, 1, [&sha, &spa, &tha, &tpa]);
            let request = Arp::from_slice(&bytes).unwrap();
            let reply_bytes = request.response_as_bytes(&own);
            assert_eq!(reply_bytes.len(), 8 + 2 * h as usize + 2 * p as usize);
            let reply = Arp::from_slice(&reply_bytes).unwrap();
            assert_eq!(reply.hw_addr_space(), 1);
            assert_eq!(reply.proto_addr_space(), 0x0800);
            assert_eq!(reply.len_hw_addr(), h);
            assert_eq!(reply.len_proto_addr(), p);
            assert_eq!(reply.opcode(), 2);
            assert_eq!(reply.hw_addr_sender(), &own[..]);
            assert_eq!(reply.proto_addr_sender(), &tpa[..]);
            assert_eq!(reply.hw_addr_receiver(), &sha[..]);
            assert_eq!(reply.proto_addr_receiver(), &spa[..]);
        }
    }
}

#[test]
fn serialize_then_parse_is_the_identity_for_all_lengths() {
    for h in 0..=8u8 {
        for p in 0..=8u8 {
            let sha = run(1, h as usize);
            let spa = run(101, p as usize);
            let tha = run(51, h as usize);
            let tpa = run(151, p as usize);
            let bytes = payload(0x0102, 0x0304, h, p, 0x0506, [&sha, &spa, &tha, &tpa]);
            let arp = Arp::from_slice(&bytes).unwrap();
            let written = arp.as_bytes();
            assert_eq!(written, bytes);
            let again = Arp::from_slice(&written).unwrap();
            assert_eq!(again.as_bytes(), bytes);
            assert_eq!(again.hw_addr_sender(), &sha[..]);
            assert_eq!(again.proto_addr_receiver(), &tpa[..]);
        }
    }
}

#[test]
fn a_hardware_address_of_another_length_is_written_as_it_is() {
    let bytes = ethernet_ipv4_request();
    let request = Arp::from_slice(&bytes).unwrap();
    assert_eq!(
        request.response_as_bytes(&[0xaa, 0xbb]),
        vec![
            0x00, 0x01, 0x08, 0x00, 0x06, 0x04, 0x00, 0x02, // header
            0xaa, 0xbb, // the address given
            10, 0, 0, 2, // target protocol of the request
            0x11, 0x11, 0x11, 0x11, 0x11, 0x11, // sender hardware of the request
            10, 0, 0, 1, // sender protocol of the request
        ]
    );
}

#[test]
fn a_reply_is_answered_like_any_message() {
    // the codec does not look at the opcode; only the router does
    let mut bytes = ethernet_ipv4_request();
    bytes[7] = 2;
    let message = Arp::from_slice(&bytes).unwrap();
    assert_eq!(message.opcode(), OPCODE_REPLY);
    let answer = message.response_as_bytes(&[0x02; 6]);
    assert_eq!(answer[6..8], [0, 2]);
    assert_eq!(answer[8..14], [0x02; 6]);
}
