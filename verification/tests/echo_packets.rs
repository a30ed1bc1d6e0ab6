use tracert::icmp::{calculate_checksum, read_be16, Icmp};

fn ipv4_header() -> Vec<u8> {
    let mut h = vec![0x45u8, 0, 0, 0, 0, 0, 0, 0, 64, 1, 0, 0];
    h.extend_from_slice(&[10, 0, 0, 1, 10, 0, 0, 2]);
    h
}

fn ipv6_header() -> Vec<u8> {
    let mut h = vec![0x60u8, 0, 0, 0, 0, 0, 58, 64];
    h.extend_from_slice(&[0u8; 32]);
    h
}

#[test]
fn checksum_of_rfc1071_example() {
    let data = [0x00u8, 0x01, 0xf2, 0x03, 0xf4, 0xf5, 0xf6, 0xf7];
    assert_eq!(calculate_checksum(&data), 0x220d);
}

#[test]
fn checksum_of_empty_data_is_all_ones() {
    assert_eq!(calculate_checksum(&[]), 0xffff);
}

#[test]
fn checksum_pads_odd_byte() {
    assert_eq!(calculate_checksum(&[0x12]), 0xedff);
    assert_eq!(calculate_checksum(&[0x12, 0x00]), 0xedff);
}

#[test]
fn checksum_folds_carries() {
    // 0xffff + 0xffff = 0x1fffe, folded to 0xffff, complemented to 0.
    assert_eq!(calculate_checksum(&[0xff, 0xff, 0xff, 0xff]), 0);
}

#[test]
fn read_be16_is_network_order() {
    assert_eq!(read_be16(0x12, 0x34), 0x1234);
}

#[test]
fn icmpv4_packet_layout_and_checksum() {
    let icmp = Icmp;
    let packet = icmp.create_icmpv4_packet(8, 0, 0x1234, 0x0001, b"abc");
    assert_eq!(packet.len(), 11);
    assert_eq!(&packet[..2], &[8, 0]);
    assert_eq!(&packet[4..8], &[0x12, 0x34, 0x00, 0x01]);
    assert_eq!(&packet[8..], b"abc");
    let mut zeroed = packet.clone();
    zeroed[2] = 0;
    zeroed[3] = 0;
    let expected = calculate_checksum(&zeroed);
    assert_eq!(packet[2], (expected >> 8) as u8);
    assert_eq!(packet[3], expected as u8);
    assert_eq!(calculate_checksum(&packet), 0);
}

#[test]
fn icmpv6_packet_checksum_verifies() {
    let icmp = Icmp;
    let packet = icmp.create_icmpv6_packet(128, 0, 0xfffe, 0xabcd, b"Hello ICMP v6!");
    assert_eq!(packet[0], 128);
    assert_eq!(packet.len(), 22);
    assert_eq!(calculate_checksum(&packet), 0);
}

#[test]
fn prepared_v4_probe() {
    let icmp = Icmp;
    let probe = icmp.prepare_icmpv4_probe(70000, 65536);
    assert_eq!(probe.identifier, 4465);
    assert_eq!(probe.sequence, 1);
    assert_eq!(probe.packet[0], 8);
    assert_eq!(&probe.packet[8..], b"Hello ICMP v4!");
    assert_eq!(read_be16(probe.packet[4], probe.packet[5]), probe.identifier);
    assert_eq!(calculate_checksum(&probe.packet), 0);
}

#[test]
fn prepared_v6_probe() {
    let icmp = Icmp;
    let probe = icmp.prepare_icmpv6_probe(42, 0);
    assert_eq!(probe.identifier, 42);
    assert_eq!(probe.sequence, 0);
    assert_eq!(probe.packet[0], 128);
    assert_eq!(&probe.packet[8..], b"Hello ICMP v6!");
    assert_eq!(calculate_checksum(&probe.packet), 0);
}

#[test]
fn v4_echo_reply_is_recognised() {
    let icmp = Icmp;
    let mut datagram = ipv4_header();
    datagram.extend(icmp.create_icmpv4_packet(0, 0, 7, 9, b"data"));
    let n = datagram.len();
    let (packet, source, elapsed) = icmp.parse_icmpv4_response(&datagram, n, "10.0.0.1", 15u32, 7, 9);
    assert_eq!(packet, Some(datagram.clone()));
    assert_eq!(source, Some("10.0.0.1"));
    assert_eq!(elapsed, 15);
}

#[test]
fn v4_echo_reply_with_other_sequence_is_ignored() {
    let icmp = Icmp;
    let mut datagram = ipv4_header();
    datagram.extend(icmp.create_icmpv4_packet(0, 0, 7, 10, b"data"));
    let n = datagram.len();
    let (packet, source, _) = icmp.parse_icmpv4_response(&datagram, n, "10.0.0.1", 0u32, 7, 9);
    assert_eq!(packet, None);
    assert_eq!(source, Some("10.0.0.1"));
}

#[test]
fn v4_time_exceeded_quoting_probe_is_recognised() {
    let icmp = Icmp;
    let mut datagram = ipv4_header();
    datagram.extend_from_slice(&[11, 0, 0, 0, 0, 0, 0, 0]);
    datagram.extend(ipv4_header());
    datagram.extend(icmp.create_icmpv4_packet(8, 0, 300, 4, b"Hello ICMP v4!"));
    let n = datagram.len();
    let (packet, source, _) = icmp.parse_icmpv4_response(&datagram, n, 1u8, (), 300, 4);
    assert_eq!(packet.map(|p| p.len()), Some(n));
    assert_eq!(source, Some(1u8));
    let (packet, _, _) = icmp.parse_icmpv4_response(&datagram, n, 1u8, (), 301, 4);
    assert_eq!(packet, None);
}

#[test]
fn v4_time_exceeded_with_nonzero_code_is_ignored() {
    let icmp = Icmp;
    let mut datagram = ipv4_header();
    datagram.extend_from_slice(&[11, 1, 0, 0, 0, 0, 0, 0]);
    datagram.extend(ipv4_header());
    datagram.extend(icmp.create_icmpv4_packet(8, 0, 300, 4, b"x"));
    let n = datagram.len();
    let (packet, source, _) = icmp.parse_icmpv4_response(&datagram, n, 1u8, (), 300, 4);
    assert_eq!(packet, None);
    assert_eq!(source, Some(1u8));
}

#[test]
fn v4_destination_unreachable_and_short_datagrams_are_ignored() {
    let icmp = Icmp;
    let mut datagram = ipv4_header();
    datagram.extend_from_slice(&[3, 1, 0, 0, 0, 7, 0, 9]);
    let (packet, source, _) = icmp.parse_icmpv4_response(&datagram, 28, 'a', (), 7, 9);
    assert_eq!(packet, None);
    assert_eq!(source, Some('a'));
    let (packet, source, _) = icmp.parse_icmpv4_response(&datagram, 27, 'a', (), 7, 9);
    assert_eq!(packet, None);
    assert_eq!(source, Some('a'));
}

#[test]
fn v4_reply_only_counts_bytes_read() {
    let icmp = Icmp;
    let mut buffer = ipv4_header();
    buffer.extend(icmp.create_icmpv4_packet(0, 0, 1, 2, b""));
    buffer.extend_from_slice(&[0xaa; 10]);
    let (packet, _, _) = icmp.parse_icmpv4_response(&buffer, 28, (), (), 1, 2);
    assert_eq!(packet, Some(buffer[..28].to_vec()));
}

#[test]
fn v6_echo_reply_is_recognised() {
    let icmp = Icmp;
    let mut datagram = ipv6_header();
    datagram.extend(icmp.create_icmpv6_packet(129, 0, 5, 6, b"payload"));
    let n = datagram.len();
    let (packet, source, elapsed) = icmp.parse_icmpv6_response(&datagram, n, "::1", 3u64, 5, 6);
    assert_eq!(packet, Some(datagram.clone()));
    assert_eq!(source, Some("::1"));
    assert_eq!(elapsed, 3);
}

#[test]
fn v6_time_exceeded_quoting_probe_is_recognised() {
    let icmp = Icmp;
    let mut datagram = ipv6_header();
    datagram.extend_from_slice(&[3, 0, 0, 0, 0, 0, 0, 0]);
    datagram.extend(ipv6_header());
    datagram.extend(icmp.create_icmpv6_packet(128, 0, 0x0102, 0x0304, b"Hello ICMP v6!"));
    let n = datagram.len();
    let (packet, source, _) = icmp.parse_icmpv6_response(&datagram, n, 9i32, (), 0x0102, 0x0304);
    assert!(packet.is_some());
    assert_eq!(source, Some(9));
}

#[test]
fn v6_short_datagram_has_no_source() {
    let icmp = Icmp;
    let datagram = vec![0u8; 47];
    let (packet, source, elapsed) = icmp.parse_icmpv6_response(&datagram, 47, 9i32, 4u8, 0, 0);
    assert_eq!(packet, None);
    assert_eq!(source, None);
    assert_eq!(elapsed, 4);
}

#[test]
fn v6_other_message_keeps_source() {
    let icmp = Icmp;
    let mut datagram = ipv6_header();
    datagram.extend_from_slice(&[1, 0, 0, 0, 0, 5, 0, 6]);
    let (packet, source, _) = icmp.parse_icmpv6_response(&datagram, 48, 9i32, (), 5, 6);
    assert_eq!(packet, None);
    assert_eq!(source, Some(9));
}

#[test]
fn response_dispatch_by_family() {
    let icmp = Icmp;
    let mut datagram = ipv4_header();
    datagram.extend(icmp.create_icmpv4_packet(0, 0, 7, 9, b""));
    let n = datagram.len();
    let (packet, source, _) = icmp.parse_response(&datagram, n, 1u8, false, (), 7, 9);
    assert!(packet.is_some());
    assert_eq!(source, Some(1));
    // Read as IPv6 the same 28 bytes are too short.
    let (packet, source, _) = icmp.parse_response(&datagram, n, 1u8, true, (), 7, 9);
    assert_eq!(packet, None);
    assert_eq!(source, None);
}

#[test]
fn any_buffer_carrying_its_checksum_verifies() {
    let mut buffer = vec![0x45u8, 0x00, 0x00, 0x00, 0x1c, 0x46, 0x40, 0x00, 0x40, 0x06, 0xb1, 0xe6, 0xac, 0x10, 0x0a, 0x63, 0xac];
    let c = calculate_checksum(&buffer);
    buffer[2] = (c >> 8) as u8;
    buffer[3] = c as u8;
    assert_eq!(calculate_checksum(&buffer), 0);
}
