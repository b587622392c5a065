use pcap_stats::cli::argument_parser::{CliArguments, Filter, FilterType, IpLiteral, SrcDstGroup};
use pcap_stats::pcap::bytes::ByteReader;
use pcap_stats::pcap::error::DecodeError;
use pcap_stats::pcap::headers::eth::{EthHdr, EthType};
use pcap_stats::pcap::headers::ip::Protocol;
use pcap_stats::pcap::reader::{decimal_string, AnalyzeResult, PcapReader, MAX_CAPTURE_BYTES};

const MAC_A: [u8; 6] = [0xaa, 0xbb, 0xcc, 0xdd, 0xee, 0xff];
const MAC_B: [u8; 6] = [0x02, 0x00, 0x00, 0x00, 0x00, 0x01];
const HOST: [u8; 4] = [10, 0, 0, 5];
const PEER: [u8; 4] = [192, 168, 1, 1];
const HOST6: [u8; 16] = [0x20, 0x01, 0x0d, 0xb8, 0, 0, 0, 0, 0, 0, 0, 0, 0, 0, 0, 5];
const PEER6: [u8; 16] = [0x20, 0x01, 0x0d, 0xb8, 0, 0, 0, 0, 0, 0, 0, 0, 0, 0, 0, 9];

fn file_header() -> Vec<u8> {
    let mut b: Vec<u8> = Vec::new();
    b.extend_from_slice(&0xa1b2_c3d4u32.to_le_bytes());
    b.extend_from_slice(&2u16.to_le_bytes());
    b.extend_from_slice(&4u16.to_le_bytes());
    b.extend_from_slice(&0i32.to_le_bytes());
    b.extend_from_slice(&0u32.to_le_bytes());
    b.extend_from_slice(&65535u32.to_le_bytes());
    b.extend_from_slice(&1u32.to_le_bytes());
    b
}

fn record(incl_len: u32, orig_len: u32, payload: &[u8]) -> Vec<u8> {
    let mut b: Vec<u8> = Vec::new();
    b.extend_from_slice(&7u32.to_le_bytes());
    b.extend_from_slice(&9u32.to_le_bytes());
    b.extend_from_slice(&incl_len.to_le_bytes());
    b.extend_from_slice(&orig_len.to_le_bytes());
    b.extend_from_slice(payload);
    b
}

fn whole(payload: &[u8], orig_len: u32) -> Vec<u8> {
    record(payload.len() as u32, orig_len, payload)
}

fn eth(dst: [u8; 6], src: [u8; 6], ether_type: u16) -> Vec<u8> {
    let mut b: Vec<u8> = Vec::new();
    b.extend_from_slice(&dst);
    b.extend_from_slice(&src);
    b.extend_from_slice(&ether_type.to_be_bytes());
    b
}

fn ipv4(src: [u8; 4], dst: [u8; 4], protocol: u8) -> Vec<u8> {
    let mut b: Vec<u8> = vec![0x45, 0, 0, 40, 0, 1, 0x40, 0, 64, protocol, 0, 0];
    b.extend_from_slice(&src);
    b.extend_from_slice(&dst);
    b
}

fn ipv6(src: [u8; 16], dst: [u8; 16], next: u8) -> Vec<u8> {
    let mut b: Vec<u8> = vec![0x60, 0, 0, 0, 0, 20, next, 64];
    b.extend_from_slice(&src);
    b.extend_from_slice(&dst);
    b
}

fn tcp(source_port: u16, dst_port: u16) -> Vec<u8> {
    let mut b: Vec<u8> = Vec::new();
    b.extend_from_slice(&source_port.to_be_bytes());
    b.extend_from_slice(&dst_port.to_be_bytes());
    b.extend_from_slice(&[0, 0, 0, 1, 0, 0, 0, 2, 0x50, 0x10, 0xff, 0xff, 0, 0, 0, 0]);
    b
}

fn udp(source_port: u16, dst_port: u16) -> Vec<u8> {
    let mut b: Vec<u8> = Vec::new();
    b.extend_from_slice(&source_port.to_be_bytes());
    b.extend_from_slice(&dst_port.to_be_bytes());
    b.extend_from_slice(&[0, 12, 0, 0]);
    b
}

fn frame(parts: &[Vec<u8>], padding: usize) -> Vec<u8> {
    let mut b: Vec<u8> = parts.concat();
    b.extend(std::iter::repeat(0x5a).take(padding));
    b
}

fn tcp4(src: [u8; 4], dst: [u8; 4], source_port: u16, dst_port: u16, padding: usize) -> Vec<u8> {
    frame(&[eth(MAC_B, MAC_A, 0x0800), ipv4(src, dst, 6), tcp(source_port, dst_port)], padding)
}

fn udp4(src: [u8; 4], dst: [u8; 4], source_port: u16, dst_port: u16, padding: usize) -> Vec<u8> {
    frame(&[eth(MAC_B, MAC_A, 0x0800), ipv4(src, dst, 17), udp(source_port, dst_port)], padding)
}

fn arp(src: [u8; 6]) -> Vec<u8> {
    frame(&[eth([0xff; 6], src, 0x0806)], 28)
}

fn capture(records: &[Vec<u8>]) -> Vec<u8> {
    let mut b: Vec<u8> = file_header();
    for r in records {
        b.extend_from_slice(r);
    }
    b
}

fn arguments(
    kind: FilterType,
    value: &str,
    address: Option<IpLiteral>,
    source: bool,
    dst: bool,
) -> CliArguments {
    CliArguments {
        file: String::from("capture.pcap"),
        filter: Filter { filter_type: kind, value: String::from(value), address },
        direction: SrcDstGroup { source, dst },
    }
}

fn mac_filter(value: &str, source: bool, dst: bool) -> CliArguments {
    arguments(FilterType::MAC, value, None, source, dst)
}

fn ipv4_filter(value: &str, octets: [u8; 4], source: bool, dst: bool) -> CliArguments {
    let address = Some(IpLiteral::V4(u32::from_be_bytes(octets)));
    arguments(FilterType::IPv4, value, address, source, dst)
}

fn ipv6_filter(value: &str, octets: [u8; 16], source: bool, dst: bool) -> CliArguments {
    let address = Some(IpLiteral::V6(u128::from_be_bytes(octets)));
    arguments(FilterType::IPv6, value, address, source, dst)
}

fn port_filter(kind: FilterType, value: &str, source: bool, dst: bool) -> CliArguments {
    arguments(kind, value, None, source, dst)
}

fn scan(args: &CliArguments, bytes: &[u8]) -> AnalyzeResult {
    assert!(bytes.len() as u64 <= MAX_CAPTURE_BYTES);
    PcapReader::new(args).read_pcap_file(bytes).unwrap()
}

fn counts(matched: u64, total: u64, captured: u64, original: u64) -> AnalyzeResult {
    AnalyzeResult {
        packet_number: matched,
        total_packets: total,
        captured_bytes: captured,
        original_bytes: original,
    }
}

#[test]
fn capture_without_records_counts_nothing() {
    let bytes: Vec<u8> = file_header();
    assert_eq!(bytes.len(), 24);
    for args in [
        mac_filter("aa:bb:cc:dd:ee:ff", true, true),
        ipv4_filter("10.0.0.5", HOST, true, true),
        ipv6_filter("2001:db8::5", HOST6, true, false),
        port_filter(FilterType::TCP, "443", false, true),
        port_filter(FilterType::UDP, "53", true, true),
    ] {
        assert_eq!(scan(&args, &bytes), counts(0, 0, 0, 0));
    }
}

#[test]
fn capture_shorter_than_its_header_is_an_error() {
    let args = mac_filter("aa:bb:cc:dd:ee:ff", true, true);
    let bytes: Vec<u8> = file_header();
    let reader = PcapReader::new(&args);
    assert_eq!(reader.read_pcap_file(&bytes[..23]), Err(DecodeError::TruncatedInput));
    assert_eq!(reader.read_pcap_file(&[]), Err(DecodeError::TruncatedInput));
}

#[test]
fn trailing_bytes_that_are_no_record_header_count_nothing() {
    let mut bytes: Vec<u8> = file_header();
    bytes.extend_from_slice(&[0u8; 15]);
    assert_eq!(scan(&mac_filter("aa:bb:cc:dd:ee:ff", true, true), &bytes), counts(0, 0, 0, 0));
}

#[test]
fn arp_record_is_counted_and_never_matched() {
    let bytes: Vec<u8> = capture(&[whole(&arp(MAC_A), 42)]);
    for args in [
        ipv4_filter("10.0.0.5", HOST, true, true),
        ipv6_filter("2001:db8::5", HOST6, true, true),
        port_filter(FilterType::TCP, "443", true, true),
        port_filter(FilterType::UDP, "443", true, true),
    ] {
        assert_eq!(scan(&args, &bytes), counts(0, 1, 0, 0));
    }
}

#[test]
fn vendor_specific_record_is_counted_and_never_matched() {
    let payload: Vec<u8> = frame(&[eth(MAC_B, MAC_A, 0x88A2)], 50);
    let bytes: Vec<u8> = capture(&[whole(&payload, 64)]);
    assert_eq!(scan(&ipv4_filter("10.0.0.5", HOST, true, true), &bytes), counts(0, 1, 0, 0));
    assert_eq!(scan(&port_filter(FilterType::UDP, "53", true, true), &bytes), counts(0, 1, 0, 0));
}

#[test]
fn record_behind_an_arp_record_starts_right_after_its_payload() {
    let first: Vec<u8> = arp(MAC_A);
    let second: Vec<u8> = tcp4(HOST, PEER, 40000, 443, 6);
    let bytes: Vec<u8> = capture(&[whole(&first, 42), whole(&second, 100)]);
    let r = scan(&ipv4_filter("10.0.0.5", HOST, true, false), &bytes);
    assert_eq!(r, counts(1, 2, second.len() as u64, 100));
}

#[test]
fn reader_stands_behind_the_headers_and_reports_the_rest() {
    let args = ipv4_filter("10.0.0.5", HOST, true, true);
    let reader = PcapReader::new(&args);
    let bytes: Vec<u8> = capture(&[whole(&arp(MAC_A), 42), whole(&tcp4(HOST, PEER, 1, 2, 9), 77)]);
    let mut cursor = ByteReader::new(&bytes);
    cursor.seek_relative(24);
    let mut result = counts(0, 0, 0, 0);
    assert_eq!(reader.read_packet(&mut cursor, &mut result), Ok(28));
    assert_eq!(cursor.position(), 24 + 16 + 14);
    assert_eq!(result, counts(0, 0, 0, 0));
    cursor.seek_relative(28);
    assert_eq!(cursor.position(), 24 + 16 + 42);
    assert_eq!(reader.read_packet(&mut cursor, &mut result), Ok(29));
    assert_eq!(cursor.position(), 24 + 16 + 42 + 16 + 14 + 20);
    assert_eq!(result, counts(1, 0, 63, 77));
    cursor.seek_relative(29);
    assert_eq!(reader.read_packet(&mut cursor, &mut result), Err(DecodeError::TruncatedInput));
    assert_eq!(cursor.position(), bytes.len() as u64);
    assert_eq!(result, counts(1, 0, 63, 77));
}

#[test]
fn failed_record_leaves_cursor_and_counts() {
    let args = port_filter(FilterType::TCP, "443", true, true);
    let reader = PcapReader::new(&args);
    let payload: Vec<u8> = tcp4(HOST, PEER, 443, 443, 0);
    let bytes: Vec<u8> = record(53, 53, &payload);
    let mut cursor = ByteReader::new(&bytes);
    let mut result = counts(3, 4, 5, 6);
    assert_eq!(reader.read_packet(&mut cursor, &mut result), Err(DecodeError::TruncatedInput));
    assert_eq!(cursor.position(), 0);
    assert_eq!(result, counts(3, 4, 5, 6));
}

#[test]
fn mac_filter_on_source_matches_the_source_only() {
    let args = mac_filter("aa:bb:cc:dd:ee:ff", true, false);
    let from_a: Vec<u8> = frame(&[eth(MAC_B, MAC_A, 0x0800)], 46);
    let to_a: Vec<u8> = frame(&[eth(MAC_A, MAC_B, 0x0800)], 46);
    assert_eq!(scan(&args, &capture(&[record(60, 1514, &from_a)])), counts(1, 1, 60, 1514));
    assert_eq!(scan(&args, &capture(&[record(60, 1514, &to_a)])), counts(0, 1, 0, 0));
    let both: Vec<u8> = capture(&[record(60, 1514, &to_a), record(60, 90, &from_a)]);
    assert_eq!(scan(&args, &both), counts(1, 2, 60, 90));
}

#[test]
fn mac_filter_on_destination_and_on_both() {
    let from_a: Vec<u8> = frame(&[eth(MAC_B, MAC_A, 0x0806)], 46);
    let to_a: Vec<u8> = frame(&[eth(MAC_A, MAC_B, 0x86DD)], 46);
    let other: Vec<u8> = frame(&[eth(MAC_B, MAC_B, 0x88A2)], 46);
    let bytes: Vec<u8> =
        capture(&[record(60, 61, &from_a), record(60, 62, &to_a), record(60, 64, &other)]);
    let on_dst = mac_filter("aa:bb:cc:dd:ee:ff", false, true);
    assert_eq!(scan(&on_dst, &bytes), counts(1, 3, 60, 62));
    let on_both = mac_filter("aa:bb:cc:dd:ee:ff", true, true);
    assert_eq!(scan(&on_both, &bytes), counts(2, 3, 120, 123));
    let on_none = mac_filter("aa:bb:cc:dd:ee:ff", false, false);
    assert_eq!(scan(&on_none, &bytes), counts(0, 3, 0, 0));
}

#[test]
fn mac_filter_compares_the_lowercase_colon_form() {
    let from_a: Vec<u8> = frame(&[eth(MAC_B, MAC_A, 0x0800)], 46);
    let bytes: Vec<u8> = capture(&[record(60, 60, &from_a)]);
    assert_eq!(scan(&mac_filter("AA:BB:CC:DD:EE:FF", true, true), &bytes), counts(0, 1, 0, 0));
    assert_eq!(scan(&mac_filter("aa-bb-cc-dd-ee-ff", true, true), &bytes), counts(0, 1, 0, 0));
    assert_eq!(scan(&mac_filter("aa:bb:cc:dd:ee:ff", true, true), &bytes), counts(1, 1, 60, 60));
}

#[test]
fn mac_filter_reads_no_deeper_than_the_ethernet_header() {
    let args = mac_filter("aa:bb:cc:dd:ee:ff", true, false);
    let bare: Vec<u8> = eth(MAC_B, MAC_A, 0x0800);
    let bytes: Vec<u8> = capture(&[whole(&bare, 14), whole(&bare, 15)]);
    assert_eq!(scan(&args, &bytes), counts(2, 2, 28, 29));
}

#[test]
fn mac_filter_matches_an_arp_record_too() {
    let args = mac_filter("aa:bb:cc:dd:ee:ff", true, false);
    let bytes: Vec<u8> = capture(&[whole(&arp(MAC_A), 42)]);
    assert_eq!(scan(&args, &bytes), counts(1, 1, 42, 42));
}

#[test]
fn compare_ethernet_header_by_direction() {
    let header = EthHdr {
        dst: String::from("02:00:00:00:00:01"),
        src: String::from("aa:bb:cc:dd:ee:ff"),
        ether_type: EthType::IPv4,
    };
    let on_source = mac_filter("aa:bb:cc:dd:ee:ff", true, false);
    assert!(PcapReader::new(&on_source).cmp_eth(&header));
    let on_dst = mac_filter("aa:bb:cc:dd:ee:ff", false, true);
    assert!(!PcapReader::new(&on_dst).cmp_eth(&header));
    let other = mac_filter("02:00:00:00:00:01", true, true);
    assert!(PcapReader::new(&other).cmp_eth(&header));
    let none = mac_filter("02:00:00:00:00:01", false, false);
    assert!(!PcapReader::new(&none).cmp_eth(&header));
}

#[test]
fn check_proto_compares_the_filter_kind() {
    let args = port_filter(FilterType::TCP, "443", true, true);
    let reader = PcapReader::new(&args);
    assert!(reader.check_proto(FilterType::TCP));
    assert!(!reader.check_proto(FilterType::UDP));
    assert!(!reader.check_proto(FilterType::MAC));
    assert!(!reader.check_proto(FilterType::IPv4));
    assert!(!reader.check_proto(FilterType::IPv6));
}

#[test]
fn ipv4_filter_matches_either_end() {
    let args = ipv4_filter("10.0.0.5", HOST, true, true);
    let from_host: Vec<u8> = tcp4(HOST, PEER, 1000, 2000, 10);
    let to_host: Vec<u8> = udp4(PEER, HOST, 1000, 2000, 10);
    let neither: Vec<u8> = tcp4(PEER, PEER, 1000, 2000, 10);
    assert_eq!(scan(&args, &capture(&[whole(&from_host, 70)])), counts(1, 1, 64, 70));
    assert_eq!(scan(&args, &capture(&[whole(&to_host, 80)])), counts(1, 1, 52, 80));
    assert_eq!(scan(&args, &capture(&[whole(&neither, 90)])), counts(0, 1, 0, 0));
    let all: Vec<u8> = capture(&[whole(&from_host, 70), whole(&neither, 90), whole(&to_host, 80)]);
    assert_eq!(scan(&args, &all), counts(2, 3, 116, 150));
}

#[test]
fn ipv4_filter_respects_the_direction() {
    let from_host: Vec<u8> = tcp4(HOST, PEER, 1000, 2000, 0);
    let to_host: Vec<u8> = tcp4(PEER, HOST, 1000, 2000, 0);
    let bytes: Vec<u8> = capture(&[whole(&from_host, 54), whole(&to_host, 55)]);
    assert_eq!(scan(&ipv4_filter("10.0.0.5", HOST, true, false), &bytes), counts(1, 2, 54, 54));
    assert_eq!(scan(&ipv4_filter("10.0.0.5", HOST, false, true), &bytes), counts(1, 2, 54, 55));
}

#[test]
fn ipv4_filter_never_matches_other_ether_types() {
    let args = ipv4_filter("10.0.0.5", HOST, true, true);
    let mut six_src: [u8; 16] = [0; 16];
    six_src[12..].copy_from_slice(&HOST);
    let v6: Vec<u8> = frame(&[eth(MAC_B, MAC_A, 0x86DD), ipv6(six_src, six_src, 6), tcp(1, 2)], 0);
    let mut arp_with_host: Vec<u8> = eth(MAC_B, MAC_A, 0x0806);
    arp_with_host.extend_from_slice(&ipv4(HOST, HOST, 6));
    let bytes: Vec<u8> = capture(&[whole(&v6, 74), whole(&arp_with_host, 34)]);
    assert_eq!(scan(&args, &bytes), counts(0, 2, 0, 0));
}

#[test]
fn ipv4_filter_stops_in_front_of_the_transport_header() {
    let args = ipv4_filter("10.0.0.5", HOST, true, true);
    let no_transport: Vec<u8> = frame(&[eth(MAC_B, MAC_A, 0x0800), ipv4(HOST, PEER, 6)], 0);
    let bytes: Vec<u8> = capture(&[whole(&no_transport, 34), whole(&no_transport, 35)]);
    assert_eq!(scan(&args, &bytes), counts(2, 2, 68, 69));
}

#[test]
fn address_filter_whose_value_is_of_the_other_family_matches_nothing() {
    let v4_record: Vec<u8> = tcp4(HOST, PEER, 1, 2, 3);
    let bytes: Vec<u8> = capture(&[whole(&v4_record, 57), whole(&v4_record, 57)]);
    let six_under_four = arguments(
        FilterType::IPv4,
        "2001:db8::5",
        Some(IpLiteral::V6(u128::from_be_bytes(HOST6))),
        true,
        true,
    );
    assert_eq!(scan(&six_under_four, &bytes), counts(0, 2, 0, 0));
    let unread = arguments(FilterType::IPv4, "10.0.0.5", None, true, true);
    assert_eq!(scan(&unread, &bytes), counts(0, 2, 0, 0));
    let v6_record: Vec<u8> =
        frame(&[eth(MAC_B, MAC_A, 0x86DD), ipv6(HOST6, PEER6, 17), udp(1, 2)], 3);
    let bytes6: Vec<u8> = capture(&[whole(&v6_record, 65), whole(&v6_record, 65)]);
    let four_under_six =
        arguments(FilterType::IPv6, "10.0.0.5", Some(IpLiteral::V4(0x0A00_0005)), true, true);
    assert_eq!(scan(&four_under_six, &bytes6), counts(0, 2, 0, 0));
}

#[test]
fn ipv6_filter_matches_either_end() {
    let from_host: Vec<u8> =
        frame(&[eth(MAC_B, MAC_A, 0x86DD), ipv6(HOST6, PEER6, 6), tcp(1, 2)], 5);
    let to_host: Vec<u8> = frame(&[eth(MAC_B, MAC_A, 0x86DD), ipv6(PEER6, HOST6, 17)], 0);
    let neither: Vec<u8> = frame(&[eth(MAC_B, MAC_A, 0x86DD), ipv6(PEER6, PEER6, 1)], 8);
    let bytes: Vec<u8> =
        capture(&[whole(&from_host, 100), whole(&to_host, 200), whole(&neither, 300)]);
    assert_eq!(
        scan(&ipv6_filter("2001:db8::5", HOST6, true, true), &bytes),
        counts(2, 3, 79 + 54, 300)
    );
    assert_eq!(
        scan(&ipv6_filter("2001:db8::5", HOST6, true, false), &bytes),
        counts(1, 3, 79, 100)
    );
    assert_eq!(
        scan(&ipv6_filter("2001:db8::5", HOST6, false, true), &bytes),
        counts(1, 3, 54, 200)
    );
}

#[test]
fn tcp_filter_on_destination_port() {
    let to_443: Vec<u8> = tcp4(HOST, PEER, 40000, 443, 12);
    let bytes: Vec<u8> = capture(&[record(66, 1500, &to_443)]);
    let tcp_args = port_filter(FilterType::TCP, "443", false, true);
    assert_eq!(scan(&tcp_args, &bytes), counts(1, 1, 66, 1500));
    let udp_args = port_filter(FilterType::UDP, "443", false, true);
    assert_eq!(scan(&udp_args, &bytes), counts(0, 1, 0, 0));
    let on_source = port_filter(FilterType::TCP, "443", true, false);
    assert_eq!(scan(&on_source, &bytes), counts(0, 1, 0, 0));
    let other_port = port_filter(FilterType::TCP, "80", true, true);
    assert_eq!(scan(&other_port, &bytes), counts(0, 1, 0, 0));
}

#[test]
fn transport_match_credits_captured_then_original() {
    let to_443: Vec<u8> = tcp4(HOST, PEER, 40000, 443, 0);
    let bytes: Vec<u8> = capture(&[record(54, 9000, &to_443)]);
    let r = scan(&port_filter(FilterType::TCP, "443", false, true), &bytes);
    assert_eq!(r.captured_bytes, 54);
    assert_eq!(r.original_bytes, 9000);
}

#[test]
fn udp_filter_matches_udp_records_only() {
    let dns: Vec<u8> = udp4(HOST, PEER, 53000, 53, 20);
    let tcp_53: Vec<u8> = tcp4(HOST, PEER, 53000, 53, 20);
    let v6_dns: Vec<u8> =
        frame(&[eth(MAC_B, MAC_A, 0x86DD), ipv6(HOST6, PEER6, 17), udp(53, 9)], 1);
    let bytes: Vec<u8> = capture(&[whole(&dns, 62), whole(&tcp_53, 74), whole(&v6_dns, 63)]);
    assert_eq!(
        scan(&port_filter(FilterType::UDP, "53", true, true), &bytes),
        counts(2, 3, 62 + 63, 62 + 63)
    );
    assert_eq!(
        scan(&port_filter(FilterType::UDP, "53", false, true), &bytes),
        counts(1, 3, 62, 62)
    );
    assert_eq!(
        scan(&port_filter(FilterType::TCP, "53", true, true), &bytes),
        counts(1, 3, 74, 74)
    );
}

#[test]
fn port_filter_takes_a_sign_and_leading_zeros() {
    let to_443: Vec<u8> = tcp4(HOST, PEER, 40000, 443, 0);
    let bytes: Vec<u8> = capture(&[whole(&to_443, 54)]);
    assert_eq!(scan(&port_filter(FilterType::TCP, "+443", true, true), &bytes), counts(1, 1, 54, 54));
    assert_eq!(scan(&port_filter(FilterType::TCP, "0443", true, true), &bytes), counts(1, 1, 54, 54));
    assert_eq!(scan(&port_filter(FilterType::TCP, "65979", true, true), &bytes), counts(0, 1, 0, 0));
    assert_eq!(scan(&port_filter(FilterType::TCP, "https", true, true), &bytes), counts(0, 1, 0, 0));
}

#[test]
fn icmp_and_igmp_are_counted_and_never_matched() {
    let ping: Vec<u8> = frame(&[eth(MAC_B, MAC_A, 0x0800), ipv4(HOST, PEER, 1)], 8);
    let igmp: Vec<u8> = frame(&[eth(MAC_B, MAC_A, 0x0800), ipv4(HOST, PEER, 2)], 0);
    let then: Vec<u8> = tcp4(HOST, PEER, 1, 443, 0);
    let bytes: Vec<u8> = capture(&[whole(&ping, 42), whole(&igmp, 34), whole(&then, 54)]);
    assert_eq!(scan(&port_filter(FilterType::TCP, "443", true, true), &bytes), counts(1, 3, 54, 54));
    assert_eq!(
        scan(&ipv6_filter("2001:db8::5", HOST6, true, true), &bytes),
        counts(0, 3, 0, 0)
    );
}

#[test]
fn address_filter_of_one_family_walks_over_the_other() {
    let v4_tcp: Vec<u8> = tcp4(HOST, PEER, 1, 2, 4);
    let v6_udp: Vec<u8> =
        frame(&[eth(MAC_B, MAC_A, 0x86DD), ipv6(HOST6, PEER6, 17), udp(1, 2)], 4);
    let v6_tcp: Vec<u8> = frame(&[eth(MAC_B, MAC_A, 0x86DD), ipv6(HOST6, PEER6, 6), tcp(1, 2)], 0);
    let bytes: Vec<u8> = capture(&[whole(&v4_tcp, 58), whole(&v6_udp, 66), whole(&v6_tcp, 74)]);
    assert_eq!(
        scan(&ipv6_filter("2001:db8::5", HOST6, true, true), &bytes),
        counts(2, 3, 66 + 74, 66 + 74)
    );
    assert_eq!(scan(&ipv4_filter("10.0.0.5", HOST, true, true), &bytes), counts(1, 3, 58, 58));
}

#[test]
fn address_filter_of_the_other_family_still_needs_the_transport_header() {
    let v4_no_tcp: Vec<u8> = frame(&[eth(MAC_B, MAC_A, 0x0800), ipv4(HOST, PEER, 6)], 19);
    let bytes: Vec<u8> = capture(&[whole(&v4_no_tcp, 53)]);
    assert_eq!(
        scan(&ipv6_filter("2001:db8::5", HOST6, true, true), &bytes),
        counts(0, 0, 0, 0)
    );
    assert_eq!(scan(&ipv4_filter("10.0.0.5", HOST, true, true), &bytes), counts(1, 1, 53, 53));
}

#[test]
fn scanning_twice_gives_the_same_counts() {
    let bytes: Vec<u8> = capture(&[
        whole(&tcp4(HOST, PEER, 1, 443, 7), 61),
        whole(&arp(MAC_A), 42),
        whole(&udp4(PEER, HOST, 53, 9, 0), 42),
    ]);
    for args in [
        mac_filter("aa:bb:cc:dd:ee:ff", true, false),
        ipv4_filter("10.0.0.5", HOST, true, true),
        port_filter(FilterType::TCP, "443", false, true),
    ] {
        let reader = PcapReader::new(&args);
        let first = reader.read_pcap_file(&bytes);
        let second = reader.read_pcap_file(&bytes);
        assert_eq!(first, second);
        assert_eq!(PcapReader::new(&args).read_pcap_file(&bytes.clone()), first);
    }
    assert_eq!(
        scan(&ipv4_filter("10.0.0.5", HOST, true, true), &bytes),
        counts(2, 3, 61 + 42, 61 + 42)
    );
}

#[test]
fn record_too_short_for_its_headers_ends_the_scan() {
    let good: Vec<u8> = tcp4(HOST, PEER, 1, 443, 0);
    let args = port_filter(FilterType::TCP, "443", false, true);
    for short in [0u32, 13, 14, 33, 34, 53] {
        let bytes: Vec<u8> =
            capture(&[whole(&good, 54), record(short, 54, &good), whole(&good, 54)]);
        assert_eq!(scan(&args, &bytes), counts(1, 1, 54, 54), "captured length {}", short);
    }
    let bytes: Vec<u8> = capture(&[whole(&good, 54), record(54, 54, &good), whole(&good, 54)]);
    assert_eq!(scan(&args, &bytes), counts(3, 3, 162, 162));
}

#[test]
fn needed_bytes_follow_the_depth_of_the_filter() {
    let good: Vec<u8> = tcp4(HOST, PEER, 1, 443, 0);
    let mac = mac_filter("aa:bb:cc:dd:ee:ff", true, false);
    assert_eq!(scan(&mac, &capture(&[record(13, 54, &good[..13])])), counts(0, 0, 0, 0));
    assert_eq!(scan(&mac, &capture(&[record(14, 54, &good[..14])])), counts(1, 1, 14, 54));
    let v4 = ipv4_filter("10.0.0.5", HOST, true, false);
    assert_eq!(scan(&v4, &capture(&[record(33, 54, &good[..33])])), counts(0, 0, 0, 0));
    assert_eq!(scan(&v4, &capture(&[record(34, 54, &good[..34])])), counts(1, 1, 34, 54));
    let port = port_filter(FilterType::TCP, "443", false, true);
    assert_eq!(scan(&port, &capture(&[record(53, 54, &good[..53])])), counts(0, 0, 0, 0));
    assert_eq!(scan(&port, &capture(&[record(54, 54, &good)])), counts(1, 1, 54, 54));
    let datagram: Vec<u8> = udp4(HOST, PEER, 1, 443, 0);
    let on_udp = port_filter(FilterType::UDP, "443", false, true);
    assert_eq!(scan(&on_udp, &capture(&[record(41, 42, &datagram[..41])])), counts(0, 0, 0, 0));
    assert_eq!(scan(&on_udp, &capture(&[record(42, 42, &datagram)])), counts(1, 1, 42, 42));
}

#[test]
fn headers_are_not_read_beyond_the_captured_length() {
    let good: Vec<u8> = tcp4(HOST, PEER, 1, 443, 0);
    let args = port_filter(FilterType::TCP, "443", false, true);
    let bytes: Vec<u8> = capture(&[record(40, 54, &good), whole(&good, 54)]);
    assert_eq!(scan(&args, &bytes), counts(0, 0, 0, 0));
}

#[test]
fn unknown_ether_type_ends_the_scan() {
    let good: Vec<u8> = tcp4(HOST, PEER, 1, 443, 0);
    let vlan: Vec<u8> = frame(&[eth(MAC_B, MAC_A, 0x8100)], 50);
    let bytes: Vec<u8> = capture(&[whole(&good, 54), whole(&vlan, 64), whole(&good, 54)]);
    assert_eq!(scan(&port_filter(FilterType::TCP, "443", true, true), &bytes), counts(1, 1, 54, 54));
    assert_eq!(scan(&mac_filter("aa:bb:cc:dd:ee:ff", true, true), &bytes), counts(1, 1, 54, 54));
}

#[test]
fn unknown_protocol_ends_the_scan() {
    let good: Vec<u8> = udp4(HOST, PEER, 1, 53, 0);
    let gre: Vec<u8> = frame(&[eth(MAC_B, MAC_A, 0x0800), ipv4(HOST, PEER, 47)], 30);
    let bytes: Vec<u8> = capture(&[whole(&good, 42), whole(&gre, 64), whole(&good, 42)]);
    assert_eq!(scan(&port_filter(FilterType::UDP, "53", true, true), &bytes), counts(1, 1, 42, 42));
    assert_eq!(scan(&ipv4_filter("10.0.0.5", HOST, true, true), &bytes), counts(1, 1, 42, 42));
    assert_eq!(scan(&mac_filter("aa:bb:cc:dd:ee:ff", true, true), &bytes), counts(3, 3, 148, 148));
}

#[test]
fn last_record_may_claim_more_than_the_file_holds() {
    let good: Vec<u8> = tcp4(HOST, PEER, 1, 443, 0);
    let bytes: Vec<u8> = capture(&[whole(&good, 54), record(1000, 1200, &good)]);
    let args = port_filter(FilterType::TCP, "443", false, true);
    assert_eq!(scan(&args, &bytes), counts(2, 2, 1054, 1254));
    let huge: Vec<u8> = capture(&[record(u32::MAX, u32::MAX, &good)]);
    assert_eq!(
        scan(&args, &huge),
        counts(1, 1, u64::from(u32::MAX), u64::from(u32::MAX))
    );
}

#[test]
fn increment_adds_one_match_and_its_lengths() {
    let mut r = counts(1, 5, 100, 200);
    r.increment(60, 1500);
    assert_eq!(r, counts(2, 5, 160, 1700));
    r.increment(0, 0);
    assert_eq!(r, counts(3, 5, 160, 1700));
}

#[test]
fn new_result_is_all_zero() {
    assert_eq!(AnalyzeResult::new(), counts(0, 0, 0, 0));
}

#[test]
fn report_has_four_labelled_lines() {
    let r = counts(2, 10, 120, 3000);
    assert_eq!(
        r.to_string(),
        "Total number of packets: 10\nPackets matched the filter: 2\nTotal bytes captured in file for filter: 120\nOriginal bytes size for filter: 3000"
    );
    assert_eq!(
        counts(0, 0, 0, 0).to_string(),
        "Total number of packets: 0\nPackets matched the filter: 0\nTotal bytes captured in file for filter: 0\nOriginal bytes size for filter: 0"
    );
}

#[test]
fn numbers_are_written_in_decimal() {
    for n in [0u64, 7, 10, 99, 100, 1234567890, u64::from(u32::MAX), u64::MAX] {
        assert_eq!(decimal_string(n), format!("{}", n));
    }
}

#[test]
fn layer_functions_report_match_size_and_next_protocol() {
    let args = port_filter(FilterType::TCP, "443", false, true);
    let reader = PcapReader::new(&args);
    let arp_header = EthHdr {
        dst: String::from("ff:ff:ff:ff:ff:ff"),
        src: String::from("aa:bb:cc:dd:ee:ff"),
        ether_type: EthType::ARP,
    };
    let v4_header = EthHdr {
        dst: String::from("ff:ff:ff:ff:ff:ff"),
        src: String::from("aa:bb:cc:dd:ee:ff"),
        ether_type: EthType::IPv4,
    };
    let bytes: Vec<u8> = frame(&[ipv4(HOST, PEER, 6), tcp(1, 443)], 0);
    let mut cursor = ByteReader::new(&bytes);
    assert_eq!(reader.process_l3_hdr(&arp_header, &mut cursor), Ok((false, 0, None)));
    assert_eq!(cursor.position(), 0);
    assert_eq!(
        reader.process_l3_hdr(&v4_header, &mut cursor),
        Ok((false, 20, Some(Protocol::TCP)))
    );
    assert_eq!(cursor.position(), 20);
    assert_eq!(reader.process_l4_hdr(Protocol::ICMP, &mut cursor), Ok((false, 0)));
    assert_eq!(cursor.position(), 20);
    assert_eq!(reader.process_l4_hdr(Protocol::TCP, &mut cursor), Ok((true, 20)));
    assert_eq!(cursor.position(), 40);
    assert_eq!(
        reader.process_l4_hdr(Protocol::UDP, &mut cursor),
        Err(DecodeError::TruncatedInput)
    );
    let v4_args = ipv4_filter("10.0.0.5", HOST, true, false);
    let v4_reader = PcapReader::new(&v4_args);
    let mut again = ByteReader::new(&bytes);
    assert_eq!(v4_reader.process_ipv4(&mut again), Ok((true, 20, None)));
    let six: Vec<u8> = ipv6(PEER6, HOST6, 17);
    let mut six_cursor = ByteReader::new(&six);
    assert_eq!(v4_reader.process_ipv6(&mut six_cursor), Ok((false, 40, Some(Protocol::UDP))));
    assert_eq!(six_cursor.position(), 40);
    let six_args = ipv6_filter("2001:db8::5", HOST6, false, true);
    let mut six_again = ByteReader::new(&six);
    assert_eq!(PcapReader::new(&six_args).process_ipv6(&mut six_again), Ok((true, 40, None)));
}
