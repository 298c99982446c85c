use etherparse::{
    Ethernet2Header, IpHeader, Ipv6Header, PacketHeaders, ReadError, SingleVlanHeader,
    TransportHeader,
};
use etherparse::read_transport;

fn ipv6_bytes(
    first_two: [u8; 2],
    flow_low: [u8; 2],
    payload_length: u16,
    next_header: u8,
    hop_limit: u8,
) -> Vec<u8> {
    let mut bytes = vec![
        first_two[0],
        first_two[1],
        flow_low[0],
        flow_low[1],
        (payload_length >> 8) as u8,
        payload_length as u8,
        next_header,
        hop_limit,
    ];
    bytes.extend_from_slice(&[1u8; 16]);
    bytes.extend_from_slice(&[2u8; 16]);
    bytes
}

fn tcp_bytes(data_offset: u8, flags: u8) -> Vec<u8> {
    let mut bytes = vec![
        0x00, 80, // source port 80
        0x1F, 0x90, // destination port 8080
        0x12, 0x34, 0x56, 0x78, // sequence number
        0x9A, 0xBC, 0xDE, 0xF0, // acknowledgment number
        data_offset << 4,
        flags,
        0x20, 0x00, // window size
        0xFE, 0xDC, // checksum
        0x00, 0x2A, // urgent pointer
    ];
    for _ in 20..(data_offset as usize) * 4 {
        bytes.push(0);
    }
    bytes
}

#[test]
fn ipv6_udp_with_hop_by_hop_extension() {
    let mut bytes = ipv6_bytes([0x60, 0], [0, 0], 18, 0, 64);
    // one hop-by-hop extension header (8 bytes) announcing UDP
    bytes.extend_from_slice(&[17, 0, 0, 0, 0, 0, 0, 0]);
    bytes.extend_from_slice(&[0, 53, 0, 53, 0, 10, 0, 0]);
    bytes.extend_from_slice(&[1, 2]);
    let headers = PacketHeaders::from_ip_slice(&bytes).unwrap();
    match headers.ip {
        Some(IpHeader::Version6(ip)) => {
            assert_eq!(ip.next_header, 0);
            assert_eq!(ip.payload_length, 18);
            assert_eq!(ip.hop_limit, 64);
            assert_eq!(ip.source, [1u8; 16]);
            assert_eq!(ip.destination, [2u8; 16]);
        }
        other => panic!("expected an IPv6 header, got {:?}", other),
    }
    match headers.transport {
        Some(TransportHeader::Udp(udp)) => {
            assert_eq!(udp.source_port, 53);
            assert_eq!(udp.destination_port, 53);
        }
        other => panic!("expected a UDP header, got {:?}", other),
    }
    assert_eq!(headers.payload, &[1, 2]);
}

#[test]
fn ipv6_traffic_class_and_flow_label_fields() {
    let bytes = ipv6_bytes([0x6A, 0xBC], [0xDE, 0xF0], 0, 59, 1);
    let headers = PacketHeaders::from_ip_slice(&bytes).unwrap();
    match headers.ip {
        Some(IpHeader::Version6(ip)) => {
            assert_eq!(ip.traffic_class, 0xAB);
            assert_eq!(ip.flow_label, 0xC_DE_F0);
        }
        other => panic!("expected an IPv6 header, got {:?}", other),
    }
    assert_eq!(headers.transport, None);
}

#[test]
fn ipv6_fragment_extension_is_always_eight_bytes() {
    // fragment header whose length byte would mean 48 bytes for any other
    // extension kind; as a fragment header it still occupies exactly 8
    let mut bytes = ipv6_bytes([0x60, 0], [0, 0], 16, 44, 64);
    bytes.extend_from_slice(&[17, 5, 0, 0, 0, 0, 0, 0]);
    bytes.extend_from_slice(&[0, 7, 0, 9, 0, 8, 0, 0]);
    let headers = PacketHeaders::from_ip_slice(&bytes).unwrap();
    assert!(matches!(
        headers.transport,
        Some(TransportHeader::Udp(_))
    ));
    assert_eq!(headers.payload, &[] as &[u8]);
}

#[test]
fn ipv6_extension_with_declared_length_is_skipped() {
    // destination-options header declaring one extra 8-byte unit (16 bytes)
    let mut bytes = ipv6_bytes([0x60, 0], [0, 0], 24, 60, 64);
    bytes.extend_from_slice(&[17, 1, 0, 0, 0, 0, 0, 0]);
    bytes.extend_from_slice(&[0u8; 8]);
    bytes.extend_from_slice(&[0, 7, 0, 9, 0, 8, 0, 0]);
    let headers = PacketHeaders::from_ip_slice(&bytes).unwrap();
    assert!(matches!(
        headers.transport,
        Some(TransportHeader::Udp(_))
    ));
}

#[test]
fn ipv6_seven_extensions_are_still_walked() {
    let mut bytes = ipv6_bytes([0x60, 0], [0, 0], 64, 0, 64);
    for _ in 0..6 {
        bytes.extend_from_slice(&[0, 0, 0, 0, 0, 0, 0, 0]);
    }
    bytes.extend_from_slice(&[17, 0, 0, 0, 0, 0, 0, 0]);
    bytes.extend_from_slice(&[0, 7, 0, 9, 0, 8, 0, 0]);
    let headers = PacketHeaders::from_ip_slice(&bytes).unwrap();
    assert!(matches!(
        headers.transport,
        Some(TransportHeader::Udp(_))
    ));
}

#[test]
fn ipv6_eighth_extension_fails() {
    let mut bytes = ipv6_bytes([0x60, 0], [0, 0], 64, 0, 64);
    for _ in 0..7 {
        bytes.extend_from_slice(&[0, 0, 0, 0, 0, 0, 0, 0]);
    }
    bytes.extend_from_slice(&[17, 0, 0, 0, 0, 0, 0, 0]);
    assert_eq!(
        PacketHeaders::from_ip_slice(&bytes),
        Err(ReadError::Ipv6TooManyHeaderExtensions)
    );
}

#[test]
fn ipv6_truncated_extension_fails() {
    let mut bytes = ipv6_bytes([0x60, 0], [0, 0], 4, 0, 64);
    bytes.extend_from_slice(&[17, 0, 0, 0]);
    assert_eq!(
        PacketHeaders::from_ip_slice(&bytes),
        Err(ReadError::UnexpectedEndOfSlice(8))
    );
}

#[test]
fn tcp_fields_and_options_are_decoded() {
    let mut bytes = vec![
        0x45, 0, 0, 46, 0, 0, 0, 0, 64, 6, 0, 0, 10, 0, 0, 1, 10, 0, 0, 2,
    ];
    bytes.extend_from_slice(&tcp_bytes(6, 0x18));
    bytes.extend_from_slice(&[0xCA, 0xFE]);
    let headers = PacketHeaders::from_ip_slice(&bytes).unwrap();
    match headers.transport {
        Some(TransportHeader::Tcp(tcp)) => {
            assert_eq!(tcp.source_port, 80);
            assert_eq!(tcp.destination_port, 8080);
            assert_eq!(tcp.sequence_number, 0x12345678);
            assert_eq!(tcp.acknowledgment_number, 0x9ABCDEF0);
            assert_eq!(tcp.data_offset, 6);
            assert_eq!(tcp.flags, 0x18);
            assert_eq!(tcp.window_size, 0x2000);
            assert_eq!(tcp.checksum, 0xFEDC);
            assert_eq!(tcp.urgent_pointer, 0x2A);
        }
        other => panic!("expected a TCP header, got {:?}", other),
    }
    assert_eq!(headers.payload, &[0xCA, 0xFE]);
}

#[test]
fn tcp_data_offset_below_minimum_fails() {
    let mut bytes = vec![
        0x45, 0, 0, 40, 0, 0, 0, 0, 64, 6, 0, 0, 10, 0, 0, 1, 10, 0, 0, 2,
    ];
    bytes.extend_from_slice(&tcp_bytes(5, 0));
    bytes[32] = 4 << 4; // data offset 4 < 5
    assert_eq!(
        PacketHeaders::from_ip_slice(&bytes),
        Err(ReadError::TcpDataOffsetTooSmall)
    );
}

#[test]
fn tcp_truncated_options_fail() {
    let mut bytes = vec![
        0x45, 0, 0, 40, 0, 0, 0, 0, 64, 6, 0, 0, 10, 0, 0, 1, 10, 0, 0, 2,
    ];
    bytes.extend_from_slice(&tcp_bytes(5, 0));
    bytes[32] = 6 << 4; // announces 24 bytes but only 20 are there
    assert_eq!(
        PacketHeaders::from_ip_slice(&bytes),
        Err(ReadError::UnexpectedEndOfSlice(24))
    );
}

#[test]
fn udp_truncated_fails() {
    let mut bytes = vec![
        0x45, 0, 0, 24, 0, 0, 0, 0, 64, 17, 0, 0, 10, 0, 0, 1, 10, 0, 0, 2,
    ];
    bytes.extend_from_slice(&[1, 2, 3, 4]);
    assert_eq!(
        PacketHeaders::from_ip_slice(&bytes),
        Err(ReadError::UnexpectedEndOfSlice(8))
    );
}

#[test]
fn ethernet_reader_extracts_fields_and_rest() {
    let bytes = [
        0x10, 0x20, 0x30, 0x40, 0x50, 0x60, 0x61, 0x51, 0x41, 0x31, 0x21, 0x11, 0x12, 0x34, 0xFF,
    ];
    let (header, rest) = Ethernet2Header::read_from_slice(&bytes).unwrap();
    assert_eq!(header.destination, [0x10, 0x20, 0x30, 0x40, 0x50, 0x60]);
    assert_eq!(header.source, [0x61, 0x51, 0x41, 0x31, 0x21, 0x11]);
    assert_eq!(header.ether_type, 0x1234);
    assert_eq!(rest, &[0xFF]);
}

#[test]
fn vlan_reader_extracts_fields_and_rest() {
    let bytes = [0x20, 0x2A, 0x08, 0x00, 0x77];
    let (tag, rest) = SingleVlanHeader::read_from_slice(&bytes).unwrap();
    assert_eq!(tag.priority_code_point, 1);
    assert!(!tag.drop_eligible_indicator);
    assert_eq!(tag.vlan_identifier, 0x2A);
    assert_eq!(tag.ether_type, 0x0800);
    assert_eq!(rest, &[0x77]);
}

#[test]
fn read_transport_with_unknown_protocol_consumes_nothing() {
    let bytes = [1, 2, 3];
    let (transport, rest) = read_transport(99, &bytes).unwrap();
    assert_eq!(transport, None);
    assert_eq!(rest, &[1, 2, 3]);
}

#[test]
fn skip_extensions_with_non_extension_protocol_consumes_nothing() {
    let bytes = [9, 9, 9];
    let (protocol, rest) = Ipv6Header::skip_all_header_extensions_in_slice(&bytes, 6).unwrap();
    assert_eq!(protocol, 6);
    assert_eq!(rest, &[9, 9, 9]);
}
