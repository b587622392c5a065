use crate::cli::argument_parser::{CliArguments, FilterType};
use crate::pcap::error::DecodeError;
use crate::pcap::headers::eth::{EthHdr, EthType};
use crate::pcap::headers::ip::{IPv4Header, IPv6Header, Protocol};
use crate::pcap::headers::pcap::PacketHeader;
use crate::pcap::headers::tcp::TcpHdr;
use crate::pcap::headers::udp::UdpHdr;
use crate::pcap::model::{
    cascade, lemma_cascade_bounds, lemma_record_bounds, lemma_scan_past_end, lemma_scan_unfold, matches_link,
    matches_ipv4, matches_ipv6, network, payload_of, record_at, scan, scan_from, Record, Tally,
};
use crate::pcap::reader::AnalyzeResult;
use vstd::prelude::*;

verus! {

/// An Ethernet header is decoded from its fourteen bytes alone: cut short
/// of them, `b` is truncated, and cut anywhere behind them it decodes as before.
pub proof fn lemma_eth_prefix(b: Seq<u8>, k: int)
    requires
        0 <= k <= b.len(),
    ensures
        EthHdr::decoded(b.take(k)) == if k < 14 {
            Err(DecodeError::TruncatedInput)
        } else {
            EthHdr::decoded(b)
        },
{
    reveal(EthHdr::decoded);
    if k >= 14 {
        let c = b.take(k);
        assert(c.skip(12)[0] == b.skip(12)[0]);
        assert(c.skip(12)[1] == b.skip(12)[1]);
        assert(c.skip(6)[0] == b.skip(6)[0]);
        assert(c.skip(6)[5] == b.skip(6)[5]);
    }
}

/// An IPv4 header is decoded from its twenty bytes alone.
pub proof fn lemma_ipv4_prefix(b: Seq<u8>, k: int)
    requires
        0 <= k <= b.len(),
    ensures
        IPv4Header::decoded(b.take(k)) == if k < 20 {
            Err(DecodeError::TruncatedInput)
        } else {
            IPv4Header::decoded(b)
        },
{
    reveal(IPv4Header::decoded);
    if k >= 20 {
        let c = b.take(k);
        assert(c.skip(2)[0] == b.skip(2)[0]);
        assert(c.skip(4)[0] == b.skip(4)[0]);
        assert(c.skip(6)[0] == b.skip(6)[0]);
        assert(c.skip(10)[0] == b.skip(10)[0]);
        assert(c.skip(12)[0] == b.skip(12)[0]);
        assert(c.skip(16)[0] == b.skip(16)[0]);
    }
}

/// An IPv6 header is decoded from its forty bytes alone.
pub proof fn lemma_ipv6_prefix(b: Seq<u8>, k: int)
    requires
        0 <= k <= b.len(),
    ensures
        IPv6Header::decoded(b.take(k)) == if k < 40 {
            Err(DecodeError::TruncatedInput)
        } else {
            IPv6Header::decoded(b)
        },
{
    reveal(IPv6Header::decoded);
    if k >= 40 {
        let c = b.take(k);
        assert(c.skip(4)[0] == b.skip(4)[0]);
        assert(c.skip(8).skip(4) =~= b.skip(8).skip(4).take(k - 12));
        assert(c.skip(8).skip(8) =~= b.skip(8).skip(8).take(k - 16));
        assert(c.skip(8).skip(12) =~= b.skip(8).skip(12).take(k - 20));
        assert(c.skip(24).skip(4) =~= b.skip(24).skip(4).take(k - 28));
        assert(c.skip(24).skip(8) =~= b.skip(24).skip(8).take(k - 32));
        assert(c.skip(24).skip(12) =~= b.skip(24).skip(12).take(k - 36));
        assert(c.skip(8) =~= b.skip(8).take(k - 8));
        assert(c.skip(24) =~= b.skip(24).take(k - 24));
    }
}

/// A TCP header is decoded from its twenty bytes alone.
pub proof fn lemma_tcp_prefix(b: Seq<u8>, k: int)
    requires
        0 <= k <= b.len(),
    ensures
        TcpHdr::decoded(b.take(k)) == if k < 20 {
            Err(DecodeError::TruncatedInput)
        } else {
            TcpHdr::decoded(b)
        },
{
    reveal(TcpHdr::decoded);
    if k >= 20 {
        let c = b.take(k);
        assert(c.skip(2)[0] == b.skip(2)[0]);
        assert(c.skip(4)[0] == b.skip(4)[0]);
        assert(c.skip(8)[0] == b.skip(8)[0]);
        assert(c.skip(12)[0] == b.skip(12)[0]);
        assert(c.skip(14)[0] == b.skip(14)[0]);
        assert(c.skip(16)[0] == b.skip(16)[0]);
        assert(c.skip(18)[0] == b.skip(18)[0]);
    }
}

/// A UDP header is decoded from its eight bytes alone.
pub proof fn lemma_udp_prefix(b: Seq<u8>, k: int)
    requires
        0 <= k <= b.len(),
    ensures
        UdpHdr::decoded(b.take(k)) == if k < 8 {
            Err(DecodeError::TruncatedInput)
        } else {
            UdpHdr::decoded(b)
        },
{
    reveal(UdpHdr::decoded);
    if k >= 8 {
        let c = b.take(k);
        assert(c.skip(2)[0] == b.skip(2)[0]);
        assert(c.skip(4)[0] == b.skip(4)[0]);
        assert(c.skip(6)[0] == b.skip(6)[0]);
    }
}

/// The decode of a record reads the bytes of its headers and nothing else.
/// Where the header stack of `payload` decodes and takes `used` bytes, a
/// payload cut short of `used` bytes fails as truncated, and a payload cut
/// anywhere behind them decodes to the same answer.
pub proof fn law_cascade_reads_headers_only(args: CliArguments, payload: Seq<u8>, k: int)
    requires
        0 <= k <= payload.len(),
        cascade(args, payload) is Ok,
    ensures
        cascade(args, payload.take(k)) == if k < cascade(args, payload)->Ok_0.1 {
            Err(DecodeError::TruncatedInput)
        } else {
            cascade(args, payload)
        },
{
    let cut = payload.take(k);
    lemma_eth_prefix(payload, k);
    if k >= 14 {
        let frame = EthHdr::decoded(payload)->Ok_0;
        let rest = payload.skip(14);
        assert(cut.skip(14) =~= rest.take(k - 14));
        lemma_ipv4_prefix(rest, k - 14);
        lemma_ipv6_prefix(rest, k - 14);
        if args.filter.filter_type != FilterType::MAC {
            let found = network(args, frame.ether_type, rest)->Ok_0;
            let used = found.1;
            if k >= 14 + used && !found.0 && found.2 is Some {
                let tail = payload.skip(14 + used);
                assert(cut.skip(14 + used) =~= tail.take(k - 14 - used));
                lemma_tcp_prefix(tail, k - 14 - used);
                lemma_udp_prefix(tail, k - 14 - used);
            }
        }
    }
}

/// Under a filter on link-layer addresses a record is judged by its Ethernet
/// header alone: it matches where the filter value is the address at a
/// selected end. With the source alone selected, a header matches exactly
/// where its source address is the filter value, whatever its destination.
pub proof fn law_link_filter_follows_direction(args: CliArguments, payload: Seq<u8>)
    requires
        args.filter.filter_type == FilterType::MAC,
        EthHdr::decoded(payload) is Ok,
    ensures
        cascade(args, payload) == Ok::<(bool, u64), DecodeError>(
            (matches_link(args, EthHdr::decoded(payload)->Ok_0), 14),
        ),
        args.direction.source && !args.direction.dst ==> (matches_link(
            args,
            EthHdr::decoded(payload)->Ok_0,
        ) <==> args.filter.value@ == EthHdr::decoded(payload)->Ok_0.src),
        !args.direction.source && args.direction.dst ==> (matches_link(
            args,
            EthHdr::decoded(payload)->Ok_0,
        ) <==> args.filter.value@ == EthHdr::decoded(payload)->Ok_0.dst),
{
}

/// Under a filter on IPv4 addresses a record of IPv4 is judged by its
/// network header, which is the last that is decoded, and a record of any
/// other type never matches. The same holds of IPv6.
pub proof fn law_address_filter_needs_its_family(args: CliArguments, payload: Seq<u8>)
    requires
        args.filter.filter_type == FilterType::IPv4 || args.filter.filter_type
            == FilterType::IPv6,
        cascade(args, payload) is Ok,
    ensures
        ({
            let frame = EthHdr::decoded(payload)->Ok_0;
            let found = cascade(args, payload)->Ok_0;
            &&& args.filter.filter_type == FilterType::IPv4 && frame.ether_type == EthType::IPv4
                ==> found == (matches_ipv4(args, IPv4Header::decoded(payload.skip(14))->Ok_0), 34u64)
            &&& args.filter.filter_type == FilterType::IPv6 && frame.ether_type == EthType::IPv6
                ==> found == (matches_ipv6(args, IPv6Header::decoded(payload.skip(14))->Ok_0), 54u64)
            &&& args.filter.filter_type == FilterType::IPv4 && frame.ether_type != EthType::IPv4
                ==> !found.0
            &&& args.filter.filter_type == FilterType::IPv6 && frame.ether_type != EthType::IPv6
                ==> !found.0
        }),
{
}

/// Under a filter on ports a record matches only where its network header
/// announces the filter's own protocol: a TCP record never matches a UDP
/// filter, nor a UDP record a TCP filter, whatever its ports.
pub proof fn law_port_filter_needs_its_protocol(args: CliArguments, payload: Seq<u8>)
    requires
        args.filter.filter_type == FilterType::TCP || args.filter.filter_type == FilterType::UDP,
        cascade(args, payload) matches Ok(found) && found.0,
    ensures
        ({
            let frame = EthHdr::decoded(payload)->Ok_0;
            let next = network(args, frame.ether_type, payload.skip(14))->Ok_0.2;
            &&& next is Some
            &&& args.filter.filter_type == FilterType::TCP ==> next == Some(Protocol::TCP)
            &&& args.filter.filter_type == FilterType::UDP ==> next == Some(Protocol::UDP)
        }),
{
}

/// A capture that ends with its file header holds no record, and its scan
/// counts nothing.
pub proof fn law_bare_header_counts_nothing(args: CliArguments, data: Seq<u8>)
    requires
        data.len() == 24,
    ensures
        scan(args, data) == Ok::<Tally, DecodeError>(Tally::zero()),
{
    lemma_scan_past_end(args, data, 24);
}

/// Where no record decodes behind the file header, the scan counts nothing.
pub proof fn law_no_record_counts_nothing(args: CliArguments, data: Seq<u8>)
    requires
        data.len() >= 24,
        record_at(args, data, 24) is Err,
    ensures
        scan(args, data) == Ok::<Tally, DecodeError>(Tally::zero()),
{
    lemma_scan_unfold(args, data, 24);
}

/// Under a filter on network or transport values, a record whose Ethernet
/// header decodes and announces ARP or the vendor-specific type is counted
/// as a record and never as a match, and the next record is looked for
/// exactly `incl_len` bytes behind the start of this record's payload.
pub proof fn law_unrouted_record_counts_unmatched(
    args: CliArguments,
    data: Seq<u8>,
    at: int,
    header: PacketHeader,
)
    requires
        args.filter.filter_type != FilterType::MAC,
        0 <= at <= data.len(),
        PacketHeader::decoded(data.skip(at)) == Ok::<PacketHeader, DecodeError>(header),
        EthHdr::decoded(payload_of(data.skip(at + 16), header.incl_len)) is Ok,
        ({
            let frame = EthHdr::decoded(payload_of(data.skip(at + 16), header.incl_len))->Ok_0;
            frame.ether_type == EthType::ARP || frame.ether_type == EthType::ATA
        }),
    ensures
        record_at(args, data, at) == Ok::<Record, DecodeError>(
            Record {
                matched: false,
                header_bytes: 14,
                captured_length: header.incl_len,
                original_length: header.orig_len,
            },
        ),
        scan_from(args, data, at) == (Tally { matched: 0, total: 1, captured: 0, original: 0 }).plus(
            scan_from(args, data, at + 16 + header.incl_len),
        ),
{
    reveal(record_at);
    lemma_scan_unfold(args, data, at);
}

/// A record whose captured length is smaller than the bytes that its header
/// stack takes ends the scan: where the bytes behind the record header would
/// decode with `used` bytes of headers, and the record header owns to fewer,
/// the record fails as truncated and nothing is counted from it on.
pub proof fn law_short_record_ends_scan(
    args: CliArguments,
    data: Seq<u8>,
    at: int,
    header: PacketHeader,
)
    requires
        0 <= at <= data.len(),
        PacketHeader::decoded(data.skip(at)) == Ok::<PacketHeader, DecodeError>(header),
        cascade(args, data.skip(at + 16)) is Ok,
        header.incl_len < cascade(args, data.skip(at + 16))->Ok_0.1,
    ensures
        record_at(args, data, at) == Err::<Record, DecodeError>(DecodeError::TruncatedInput),
        scan_from(args, data, at) == Tally::zero(),
{
    reveal(record_at);
    let rest = data.skip(at + 16);
    lemma_cascade_bounds(args, rest);
    law_cascade_reads_headers_only(args, rest, header.incl_len as int);
    lemma_scan_unfold(args, data, at);
}

/// The counts of the first `n` records from offset `at` on, and the offset
/// behind the last of them; `None` where one of them does not decode.
pub open spec fn leading_records(args: CliArguments, data: Seq<u8>, at: int, n: nat) -> Option<
    (Tally, int),
>
    decreases n,
{
    if n == 0 {
        Some((Tally::zero(), at))
    } else {
        match record_at(args, data, at) {
            Err(_) => None,
            Ok(record) => match leading_records(
                args,
                data,
                at + 16 + record.captured_length,
                (n - 1) as nat,
            ) {
                None => None,
                Some((tally, end)) => Some((record.tally().plus(tally), end)),
            },
        }
    }
}

/// What the records before a point have added stays: the scan is the counts
/// of its first `n` records and then the scan from behind them, so where the
/// record behind them cannot be decoded the scan is the counts of those `n`.
pub proof fn law_scan_keeps_earlier_counts(args: CliArguments, data: Seq<u8>, at: int, n: nat)
    requires
        leading_records(args, data, at, n) is Some,
    ensures
        scan_from(args, data, at) == leading_records(args, data, at, n)->Some_0.0.plus(
            scan_from(args, data, leading_records(args, data, at, n)->Some_0.1),
        ),
        record_at(args, data, leading_records(args, data, at, n)->Some_0.1) is Err ==> scan_from(
            args,
            data,
            at,
        ) == leading_records(args, data, at, n)->Some_0.0,
    decreases n,
{
    let end = leading_records(args, data, at, n)->Some_0.1;
    lemma_scan_unfold(args, data, end);
    if n > 0 {
        let record = record_at(args, data, at)->Ok_0;
        lemma_scan_unfold(args, data, at);
        law_scan_keeps_earlier_counts(
            args,
            data,
            at + 16 + record.captured_length,
            (n - 1) as nat,
        );
    }
}

/// In the counts of a scan no record matches that was not decoded, and no
/// matching record adds more than a length of thirty-two bits.
pub proof fn law_scan_counts_are_bounded(args: CliArguments, data: Seq<u8>, at: int)
    ensures
        scan_from(args, data, at).matched <= scan_from(args, data, at).total,
        scan_from(args, data, at).captured <= scan_from(args, data, at).matched * u32::MAX,
        scan_from(args, data, at).original <= scan_from(args, data, at).matched * u32::MAX,
    decreases
            (if 0 <= at <= data.len() {
                data.len() - at
            } else {
                0
            }),
{
    lemma_scan_unfold(args, data, at);
    if record_at(args, data, at) is Ok {
        let record = record_at(args, data, at)->Ok_0;
        lemma_record_bounds(args, data, at);
        law_scan_counts_are_bounded(args, data, at + 16 + record.captured_length);
    }
}

/// A scan has one answer: two results of scanning the same capture for the
/// same arguments are equal.
pub proof fn law_scan_is_repeatable(
    args: CliArguments,
    data: Seq<u8>,
    first: Result<AnalyzeResult, DecodeError>,
    second: Result<AnalyzeResult, DecodeError>,
)
    requires
        AnalyzeResult::reports(first, scan(args, data)),
        AnalyzeResult::reports(second, scan(args, data)),
    ensures
        first == second,
{
}

} // verus!
