use link_responder::error::ParseError;
use link_responder::ethernet::{
    EthernetFrame, ETHER_TYPE_ARP, ETHER_TYPE_IPV4, ETHER_TYPE_IPV6, HEADER_LEN,
};

fn frame_bytes(destination: [u8; 6], source: [u8; 6], ether_type: u16, payload: &[u8]) -> Vec<u8> {
    let mut bytes = Vec::new();
    bytes.extend_from_slice(&destination);
    bytes.extend_from_slice(&source);
    bytes.extend_from_slice(&ether_type.to_be_bytes());
    bytes.extend_from_slice(payload);
    bytes
}

#[test]
fn ether_types_are_those_of_the_registry() {
    assert_eq!(HEADER_LEN, 14);
    assert_eq!(ETHER_TYPE_IPV4, 0x0800);
    assert_eq!(ETHER_TYPE_ARP, 0x0806);
    assert_eq!(ETHER_TYPE_IPV6, 0x86dd);
    assert_eq!(ETHER_TYPE_IPV4, etherparse::EtherType::IPV4.0);
    assert_eq!(ETHER_TYPE_ARP, etherparse::EtherType::ARP.0);
    assert_eq!(ETHER_TYPE_IPV6, etherparse::EtherType::IPV6.0);
}

#[test]
fn frame_fields_are_read_at_their_offsets() {
    let bytes = [
        1, 2, 3, 4, 5, 6, // destination
        7, 8, 9, 10, 11, 12, // source
        0x86, 0xdd, // EtherType
        0xca, 0xfe, 0x00, // payload
    ];
    let frame = EthernetFrame::from_slice(&bytes).unwrap();
    assert_eq!(frame.destination, [1, 2, 3, 4, 5, 6]);
    assert_eq!(frame.source, [7, 8, 9, 10, 11, 12]);
    assert_eq!(frame.ether_type, 0x86dd);
    assert_eq!(frame.payload, &[0xca, 0xfe, 0x00]);
}

#[test]
fn a_header_alone_is_a_frame_with_an_empty_payload() {
    let bytes = frame_bytes([0xff; 6], [0x01; 6], 0x0806, &[]);
    assert_eq!(bytes.len(), 14);
    let frame = EthernetFrame::from_slice(&bytes).unwrap();
    assert_eq!(frame.destination, [0xff; 6]);
    assert_eq!(frame.source, [0x01; 6]);
    assert_eq!(frame.ether_type, ETHER_TYPE_ARP);
    assert!(frame.payload.is_empty());
}

#[test]
fn frames_shorter_than_a_header_are_truncated() {
    let bytes = frame_bytes([1; 6], [2; 6], 0x0800, &[]);
    for len in 0..14 {
        assert_eq!(
            EthernetFrame::from_slice(&bytes[..len]).unwrap_err(),
            ParseError::TruncatedPacket,
            "length {}",
            len
        );
    }
}

#[test]
fn reply_swaps_the_addresses_and_keeps_the_type() {
    let inbound = frame_bytes([0xbb; 6], [0xaa; 6], 0x0806, &[1, 2, 3]);
    let frame = EthernetFrame::from_slice(&inbound).unwrap();
    assert_eq!(frame.source, [0xaa; 6]);
    assert_eq!(frame.destination, [0xbb; 6]);
    let outbound = frame.reply(&[9, 8, 7, 6]);
    assert_eq!(
        outbound,
        vec![
            0xaa, 0xaa, 0xaa, 0xaa, 0xaa, 0xaa, // destination: the inbound source
            0xbb, 0xbb, 0xbb, 0xbb, 0xbb, 0xbb, // source: the inbound destination
            0x08, 0x06, // EtherType kept
            9, 8, 7, 6, // the payload given
        ]
    );
    let parsed = EthernetFrame::from_slice(&outbound).unwrap();
    assert_eq!(parsed.source, [0xbb; 6]);
    assert_eq!(parsed.destination, [0xaa; 6]);
    assert_eq!(parsed.ether_type, 0x0806);
    assert_eq!(parsed.payload, &[9, 8, 7, 6]);
}

#[test]
fn reply_with_an_empty_payload_is_a_header() {
    let frame = EthernetFrame {
        destination: [1, 2, 3, 4, 5, 6],
        source: [7, 8, 9, 10, 11, 12],
        ether_type: 0x1234,
        payload: &[0xff; 40],
    };
    assert_eq!(frame.reply(&[]), vec![7, 8, 9, 10, 11, 12, 1, 2, 3, 4, 5, 6, 0x12, 0x34]);
}

#[test]
fn replying_twice_restores_the_addresses() {
    let inbound = frame_bytes([1, 2, 3, 4, 5, 6], [7, 8, 9, 10, 11, 12], 0x0800, &[5; 5]);
    let there = EthernetFrame::from_slice(&inbound).unwrap().reply(&[5; 5]);
    assert_ne!(there, inbound);
    let back = EthernetFrame::from_slice(&there).unwrap().reply(&[5; 5]);
    assert_eq!(back, inbound);
}

#[test]
fn frames_agree_with_the_header_type_of_etherparse() {
    let header = etherparse::Ethernet2Header {
        source: [0x10, 0x20, 0x30, 0x40, 0x50, 0x60],
        destination: [0x0a, 0x0b, 0x0c, 0x0d, 0x0e, 0x0f],
        ether_type: etherparse::EtherType(0x88b5),
    };
    let mut bytes = header.to_bytes().to_vec();
    bytes.extend_from_slice(&[1, 1, 2, 3, 5, 8]);
    let frame = EthernetFrame::from_slice(&bytes).unwrap();
    assert_eq!(frame.source, header.source);
    assert_eq!(frame.destination, header.destination);
    assert_eq!(frame.ether_type, 0x88b5);
    assert_eq!(frame.payload, &[1, 1, 2, 3, 5, 8]);

    let answer = frame.reply(&[13]);
    let (answer_header, rest) = etherparse::Ethernet2Header::from_slice(&answer).unwrap();
    assert_eq!(answer_header.source, header.destination);
    assert_eq!(answer_header.destination, header.source);
    assert_eq!(answer_header.ether_type, header.ether_type);
    assert_eq!(rest, &[13]);
}
