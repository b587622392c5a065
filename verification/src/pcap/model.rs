use crate::cli::argument_parser::{port_of, CliArguments, FilterType, IpLiteral};
use crate::pcap::error::DecodeError;
use crate::pcap::headers::eth::{EthFrame, EthHdr, EthType};
use crate::pcap::headers::ip::{IPv4Header, IPv6Header, Protocol};
use crate::pcap::headers::pcap::PacketHeader;
use crate::pcap::headers::tcp::TcpHdr;
use crate::pcap::headers::udp::UdpHdr;
use vstd::prelude::*;

verus! {

/// The four counts of a scan, without a machine's limits.
pub struct Tally {
    /// Records that matched the filter.
    pub matched: nat,
    /// Records that were decoded.
    pub total: nat,
    /// Sum of the captured lengths of the records that matched.
    pub captured: nat,
    /// Sum of the original lengths of the records that matched.
    pub original: nat,
}

impl Tally {
    /// Nothing counted.
    pub open spec fn zero() -> Tally {
        Tally { matched: 0, total: 0, captured: 0, original: 0 }
    }

    /// The counts of `self` and `other` together.
    pub open spec fn plus(self, other: Tally) -> Tally {
        Tally {
            matched: self.matched + other.matched,
            total: self.total + other.total,
            captured: self.captured + other.captured,
            original: self.original + other.original,
        }
    }
}

/// What decoding one record found.
pub struct Record {
    /// Whether the record matched the filter.
    pub matched: bool,
    /// Bytes of the record's payload that the decoded headers take.
    pub header_bytes: u64,
    /// The record's captured length.
    pub captured_length: u32,
    /// The record's original length.
    pub original_length: u32,
}

impl Record {
    /// What the record adds to the counts of matching records.
    pub open spec fn credit(self) -> Tally {
        if self.matched {
            Tally {
                matched: 1,
                total: 0,
                captured: self.captured_length as nat,
                original: self.original_length as nat,
            }
        } else {
            Tally::zero()
        }
    }

    /// What the record adds to the counts of a scan.
    pub open spec fn tally(self) -> Tally {
        Tally { total: 1, ..self.credit() }
    }

    /// Bytes of the payload that lie behind the decoded headers.
    pub open spec fn residual(self) -> u64 {
        (self.captured_length - self.header_bytes) as u64
    }
}

/// The filter value is found at a selected end of the Ethernet header.
pub open spec fn link_match(args: CliArguments, frame: EthFrame) -> bool {
    ||| args.direction.source && args.filter.value@ == frame.src
    ||| args.direction.dst && args.filter.value@ == frame.dst
}

/// The filter is on link-layer addresses and the Ethernet header matches it.
pub open spec fn matches_link(args: CliArguments, frame: EthFrame) -> bool {
    args.filter.filter_type == FilterType::MAC && link_match(args, frame)
}

/// The filter is on IPv4 addresses, its value spells one, and that address
/// is found at a selected end of the header.
pub open spec fn matches_ipv4(args: CliArguments, header: IPv4Header) -> bool {
    &&& args.filter.filter_type == FilterType::IPv4
    &&& args.filter.address matches Some(IpLiteral::V4(address))
    &&& {
        ||| args.direction.source && address == header.source_addr
        ||| args.direction.dst && address == header.dst_addr
    }
}

/// The filter is on IPv6 addresses, its value spells one, and that address
/// is found at a selected end of the header.
pub open spec fn matches_ipv6(args: CliArguments, header: IPv6Header) -> bool {
    &&& args.filter.filter_type == FilterType::IPv6
    &&& args.filter.address matches Some(IpLiteral::V6(address))
    &&& {
        ||| args.direction.source && address == header.source_addr
        ||| args.direction.dst && address == header.dst_addr
    }
}

/// The filter is on ports of the protocol `kind`, its value spells a port,
/// and that port is found at a selected end.
pub open spec fn matches_transport(
    args: CliArguments,
    kind: FilterType,
    source_port: u16,
    dst_port: u16,
) -> bool {
    &&& args.filter.filter_type == kind
    &&& port_of(args.filter.value@) matches Some(port)
    &&& {
        ||| args.direction.source && port == source_port
        ||| args.direction.dst && port == dst_port
    }
}

/// An IPv4 header at the start of `b`: whether it matches, the bytes it
/// takes, and the protocol to decode next. Under an IPv4 filter the decode
/// ends here, so no protocol is handed on.
pub open spec fn network_v4(args: CliArguments, b: Seq<u8>) -> Result<
    (bool, u64, Option<Protocol>),
    DecodeError,
> {
    match IPv4Header::decoded(b) {
        Err(e) => Err(e),
        Ok(header) => if args.filter.filter_type == FilterType::IPv4 {
            Ok((matches_ipv4(args, header), 20, None))
        } else {
            Ok((false, 20, Some(header.protocol)))
        },
    }
}

/// An IPv6 header at the start of `b`: whether it matches, the bytes it
/// takes, and the protocol to decode next. Under an IPv6 filter the decode
/// ends here, so no protocol is handed on.
pub open spec fn network_v6(args: CliArguments, b: Seq<u8>) -> Result<
    (bool, u64, Option<Protocol>),
    DecodeError,
> {
    match IPv6Header::decoded(b) {
        Err(e) => Err(e),
        Ok(header) => if args.filter.filter_type == FilterType::IPv6 {
            Ok((matches_ipv6(args, header), 40, None))
        } else {
            Ok((false, 40, Some(header.protocol)))
        },
    }
}

/// The network layer behind an Ethernet header of type `ether_type`. ARP and
/// the vendor-specific type end the decode with no byte taken and no match.
pub open spec fn network(args: CliArguments, ether_type: EthType, b: Seq<u8>) -> Result<
    (bool, u64, Option<Protocol>),
    DecodeError,
> {
    match ether_type {
        EthType::ARP => Ok((false, 0, None)),
        EthType::ATA => Ok((false, 0, None)),
        EthType::IPv4 => network_v4(args, b),
        EthType::IPv6 => network_v6(args, b),
    }
}

/// The transport layer behind a network header that announced `protocol`:
/// whether it matches, and the bytes it takes. ICMP and IGMP take none and
/// match nothing.
pub open spec fn transport(args: CliArguments, protocol: Protocol, b: Seq<u8>) -> Result<
    (bool, u64),
    DecodeError,
> {
    match protocol {
        Protocol::TCP => match TcpHdr::decoded(b) {
            Err(e) => Err(e),
            Ok(header) => Ok(
                (
                    matches_transport(args, FilterType::TCP, header.source_port, header.dst_port),
                    20,
                ),
            ),
        },
        Protocol::UDP => match UdpHdr::decoded(b) {
            Err(e) => Err(e),
            Ok(header) => Ok(
                (
                    matches_transport(args, FilterType::UDP, header.source_port, header.dst_port),
                    8,
                ),
            ),
        },
        Protocol::ICMP => Ok((false, 0)),
        Protocol::IGMP => Ok((false, 0)),
    }
}

/// The header stack at the start of `payload`, decoded as deep as the
/// filter asks: whether the record matches, and the bytes its headers take.
pub open spec fn cascade(args: CliArguments, payload: Seq<u8>) -> Result<(bool, u64), DecodeError> {
    match EthHdr::decoded(payload) {
        Err(e) => Err(e),
        Ok(frame) => if args.filter.filter_type == FilterType::MAC {
            Ok((matches_link(args, frame), 14))
        } else {
            match network(args, frame.ether_type, payload.skip(14)) {
                Err(e) => Err(e),
                Ok((hit, used, next)) => if hit || next is None {
                    Ok((hit, (14 + used) as u64))
                } else {
                    match transport(args, next->Some_0, payload.skip(14 + used)) {
                        Err(e) => Err(e),
                        Ok((hit, more)) => Ok((hit, (14 + used + more) as u64)),
                    }
                },
            }
        },
    }
}

/// The payload of a record: the next `captured_length` bytes of `rest`, or
/// all of `rest` where the capture ends before that.
pub open spec fn payload_of(rest: Seq<u8>, captured_length: u32) -> Seq<u8> {
    if captured_length <= rest.len() {
        rest.take(captured_length as int)
    } else {
        rest
    }
}

/// The record whose header starts at offset `at` of the capture `data`.
#[verifier::opaque]
pub open spec fn record_at(args: CliArguments, data: Seq<u8>, at: int) -> Result<
    Record,
    DecodeError,
> {
    if at < 0 || at > data.len() {
        Err(DecodeError::TruncatedInput)
    } else {
        match PacketHeader::decoded(data.skip(at)) {
            Err(e) => Err(e),
            Ok(header) => match cascade(args, payload_of(data.skip(at + 16), header.incl_len)) {
                Err(e) => Err(e),
                Ok((matched, header_bytes)) => Ok(
                    Record {
                        matched,
                        header_bytes,
                        captured_length: header.incl_len,
                        original_length: header.orig_len,
                    },
                ),
            },
        }
    }
}

/// The counts over the records from offset `at` on: each record is followed
/// by the next one `captured_length` bytes behind its own header, and the
/// first that cannot be decoded ends the scan.
#[verifier::opaque]
pub open spec fn scan_from(args: CliArguments, data: Seq<u8>, at: int) -> Tally
    decreases
            (if 0 <= at <= data.len() {
                data.len() - at
            } else {
                0
            }),
    via scan_from_decreases
{
    match record_at(args, data, at) {
        Err(_) => Tally::zero(),
        Ok(record) => record.tally().plus(
            scan_from(args, data, at + 16 + record.captured_length),
        ),
    }
}

#[via_fn]
proof fn scan_from_decreases(args: CliArguments, data: Seq<u8>, at: int) {
    reveal(record_at);
}

/// The counts of a whole capture: its records start behind the file header
/// of twenty-four bytes, without which there is no capture.
pub open spec fn scan(args: CliArguments, data: Seq<u8>) -> Result<Tally, DecodeError> {
    if data.len() < 24 {
        Err(DecodeError::TruncatedInput)
    } else {
        Ok(scan_from(args, data, 24))
    }
}

/// A record that decodes lies within the capture with all its decoded
/// headers, which take between 14 and 74 bytes and no more than the record's
/// captured length.
pub proof fn lemma_record_bounds(args: CliArguments, data: Seq<u8>, at: int)
    requires
        record_at(args, data, at) is Ok,
    ensures
        0 <= at,
        at + 16 + record_at(args, data, at)->Ok_0.header_bytes <= data.len(),
        14 <= record_at(args, data, at)->Ok_0.header_bytes <= 74,
        record_at(args, data, at)->Ok_0.header_bytes <= record_at(
            args,
            data,
            at,
        )->Ok_0.captured_length,
{
    reveal(record_at);
    let header = PacketHeader::decoded(data.skip(at))->Ok_0;
    lemma_cascade_bounds(args, payload_of(data.skip(at + 16), header.incl_len));
}

/// The headers that a decode takes lie within the payload, and take between
/// 14 and 74 bytes.
pub proof fn lemma_cascade_bounds(args: CliArguments, payload: Seq<u8>)
    requires
        cascade(args, payload) is Ok,
    ensures
        14 <= cascade(args, payload)->Ok_0.1 <= payload.len(),
        cascade(args, payload)->Ok_0.1 <= 74,
{
    reveal(EthHdr::decoded);
    reveal(IPv4Header::decoded);
    reveal(IPv6Header::decoded);
    reveal(TcpHdr::decoded);
    reveal(UdpHdr::decoded);
}

/// The scan from `at` on is the record at `at` and then the scan from where
/// that record's payload ends; it counts nothing where no record decodes.
pub proof fn lemma_scan_unfold(args: CliArguments, data: Seq<u8>, at: int)
    ensures
        scan_from(args, data, at) == match record_at(args, data, at) {
            Err(_) => Tally::zero(),
            Ok(record) => record.tally().plus(
                scan_from(args, data, at + 16 + record.captured_length),
            ),
        },
{
    reveal(scan_from);
}

/// Where fewer than sixteen bytes are left there is no record, and the scan
/// counts nothing.
pub proof fn lemma_scan_past_end(args: CliArguments, data: Seq<u8>, at: int)
    requires
        at + 16 > data.len(),
    ensures
        record_at(args, data, at) == Err::<Record, DecodeError>(DecodeError::TruncatedInput),
        scan_from(args, data, at) == Tally::zero(),
{
    reveal(record_at);
    reveal(scan_from);
}

} // verus!
