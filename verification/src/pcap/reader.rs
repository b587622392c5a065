use crate::cli::argument_parser::{parse_unsigned, CliArguments, FilterType, IpLiteral};
use crate::pcap::bytes::ByteReader;
use crate::pcap::error::DecodeError;
use crate::pcap::headers::eth::{hex_digit, hex_str, EthHdr, EthType, ETH_HEADER_SIZE};
use crate::pcap::headers::ip::{
    IPv4Header, IPv6Header, Protocol, IPV4_HEADER_SIZE, IPV6_HEADER_SIZE,
};
use crate::pcap::headers::pcap::{PacketHeader, PcapFileHeader};
use crate::pcap::headers::tcp::{TcpHdr, TCP_HEADER_SIZE};
use crate::pcap::headers::udp::{UdpHdr, UDP_HEADER_SIZE};
use crate::pcap::model::{
    lemma_record_bounds, lemma_scan_past_end, lemma_scan_unfold, link_match, network, network_v4,
    network_v6, record_at, scan, scan_from, transport, Tally,
};
use vstd::prelude::*;
use vstd::string::StringExecFns;

verus! {

/// The longest capture that a scan takes. Up to this length the counts
/// cannot outgrow their sixty-four bits.
pub const MAX_CAPTURE_BYTES: u64 = 0x10_0000_0000;

/// The number `n` in decimal digits, without leading zeros.
pub open spec fn decimal_text(n: nat) -> Seq<char>
    decreases n,
{
    if n < 10 {
        seq![hex_digit(n as int)]
    } else {
        decimal_text(n / 10) + seq![hex_digit((n % 10) as int)]
    }
}

/// The number `n` in decimal digits, without leading zeros.
pub fn decimal_string(n: u64) -> (s: String)
    ensures
        s@ == decimal_text(n as nat),
    decreases n,
{
    if n < 10 {
        String::from_str(hex_str(n as u8))
    } else {
        let mut s = decimal_string(n / 10);
        s.append(hex_str((n % 10) as u8));
        s
    }
}

/// The counts that a scan gathers.
#[derive(Debug, Clone, Copy, PartialEq, Eq, Structural)]
pub struct AnalyzeResult {
    /// Records that matched the filter.
    pub packet_number: u64,
    /// Records that were decoded.
    pub total_packets: u64,
    /// Sum of the captured lengths of the records that matched.
    pub captured_bytes: u64,
    /// Sum of the original lengths of the records that matched.
    pub original_bytes: u64,
}

impl View for AnalyzeResult {
    type V = Tally;

    open spec fn view(&self) -> Tally {
        Tally {
            matched: self.packet_number as nat,
            total: self.total_packets as nat,
            captured: self.captured_bytes as nat,
            original: self.original_bytes as nat,
        }
    }
}

impl AnalyzeResult {
    /// One more matching record of any lengths can be counted.
    pub open spec fn has_room(&self) -> bool {
        &&& self.packet_number < u64::MAX
        &&& self.captured_bytes + u32::MAX <= u64::MAX
        &&& self.original_bytes + u32::MAX <= u64::MAX
    }

    /// `r` is the answer of a scan whose outcome is `outcome`: the same
    /// error, or the same counts.
    pub open spec fn reports(
        r: Result<AnalyzeResult, DecodeError>,
        outcome: Result<Tally, DecodeError>,
    ) -> bool {
        match outcome {
            Err(e) => r == Err::<AnalyzeResult, DecodeError>(e),
            Ok(tally) => r is Ok && r->Ok_0@ == tally,
        }
    }

    /// The counts as a report of four lines.
    pub open spec fn report(&self) -> Seq<char> {
        "Total number of packets: "@ + decimal_text(self.total_packets as nat)
            + "\nPackets matched the filter: "@ + decimal_text(self.packet_number as nat)
            + "\nTotal bytes captured in file for filter: "@ + decimal_text(
            self.captured_bytes as nat,
        ) + "\nOriginal bytes size for filter: "@ + decimal_text(self.original_bytes as nat)
    }

    /// The counts as a report of four lines, each a label and a number.
    pub fn to_string(&self) -> (s: String)
        ensures
            s@ == self.report(),
    {
        let mut s = String::from_str("Total number of packets: ");
        s.append(decimal_string(self.total_packets).as_str());
        s.append("\nPackets matched the filter: ");
        s.append(decimal_string(self.packet_number).as_str());
        s.append("\nTotal bytes captured in file for filter: ");
        s.append(decimal_string(self.captured_bytes).as_str());
        s.append("\nOriginal bytes size for filter: ");
        s.append(decimal_string(self.original_bytes).as_str());
        s
    }

    /// Nothing counted yet.
    pub fn new() -> (r: Self)
        ensures
            r@ == Tally::zero(),
    {
        AnalyzeResult { packet_number: 0, total_packets: 0, captured_bytes: 0, original_bytes: 0 }
    }

    /// Counts one matching record with its two lengths.
    pub fn increment(&mut self, captured_bytes: u64, original_bytes: u64)
        requires
            old(self).packet_number < u64::MAX,
            old(self).captured_bytes + captured_bytes <= u64::MAX,
            old(self).original_bytes + original_bytes <= u64::MAX,
        ensures
            final(self).packet_number == old(self).packet_number + 1,
            final(self).total_packets == old(self).total_packets,
            final(self).captured_bytes == old(self).captured_bytes + captured_bytes,
            final(self).original_bytes == old(self).original_bytes + original_bytes,
    {
        self.packet_number = self.packet_number + 1;
        self.captured_bytes = self.captured_bytes + captured_bytes;
        self.original_bytes = self.original_bytes + original_bytes;
    }
}

/// Scans captures for one set of arguments.
pub struct PcapReader<'a> {
    pub args: &'a CliArguments,
}

impl<'a> PcapReader<'a> {
    /// A reader that scans for `args`.
    pub fn new(args: &'a CliArguments) -> (r: Self)
        ensures
            r.args == args,
    {
        Self { args }
    }

    /// Scans a capture, handed over as the bytes of the file, and counts the
    /// records up to the first that cannot be decoded. Only a capture too
    /// short for its file header is an error.
    pub fn read_pcap_file(&self, bytes: &[u8]) -> (r: Result<AnalyzeResult, DecodeError>)
        requires
            bytes@.len() <= MAX_CAPTURE_BYTES,
        ensures
            AnalyzeResult::reports(r, scan(*self.args, bytes@)),
    {
        let mut reader = ByteReader::new(bytes);
        PcapFileHeader::read(&mut reader)?;
        let mut result = AnalyzeResult::new();

        loop
            invariant
                reader.wf(),
                reader.bytes() == bytes@,
                bytes@.len() <= MAX_CAPTURE_BYTES,
                24 + 16 * result.total_packets <= reader.offset(),
                result.packet_number <= result.total_packets,
                result.captured_bytes <= result.total_packets * u32::MAX,
                result.original_bytes <= result.total_packets * u32::MAX,
                result@.plus(scan_from(*self.args, bytes@, reader.offset())) == scan_from(
                    *self.args,
                    bytes@,
                    24,
                ),
            ensures
                result@ == scan_from(*self.args, bytes@, 24),
            decreases bytes@.len() - reader.offset(),
        {
            let ghost at = reader.offset();
            proof {
                lemma_scan_unfold(*self.args, bytes@, at);
            }
            match self.read_packet(&mut reader, &mut result) {
                Ok(to_shift) => {
                    proof {
                        let record = record_at(*self.args, bytes@, at)->Ok_0;
                        let next = at + 16 + record.captured_length;
                        lemma_record_bounds(*self.args, bytes@, at);
                        if next > bytes@.len() {
                            lemma_scan_past_end(*self.args, bytes@, next);
                            lemma_scan_past_end(*self.args, bytes@, bytes@.len() as int);
                        }
                    }
                    reader.seek_relative(to_shift);
                    result.total_packets = result.total_packets + 1;
                },
                Err(_) => {
                    break ;
                },
            };
        }

        Ok(result)
    }

    /// Decodes the record under the cursor as deep as the filter asks, and
    /// counts it in `result` if it matches. Returns the bytes of the payload
    /// that lie behind the decoded headers, for the caller to skip. On an
    /// error neither the cursor nor the counts change.
    pub fn read_packet(&self, reader: &mut ByteReader, result: &mut AnalyzeResult) -> (r: Result<
        u64,
        DecodeError,
    >)
        requires
            old(reader).wf(),
            old(result).has_room(),
        ensures
            match record_at(*self.args, old(reader).bytes(), old(reader).offset()) {
                Err(e) => {
                    &&& r == Err::<u64, DecodeError>(e)
                    &&& *final(reader) == *old(reader)
                    &&& *final(result) == *old(result)
                },
                Ok(record) => {
                    &&& r == Ok::<u64, DecodeError>(record.residual())
                    &&& final(reader).advanced_from(old(reader), 16 + record.header_bytes)
                    &&& final(result)@ == old(result)@.plus(record.credit())
                },
            },
    {
        proof {
            reveal(record_at);
        }
        let mut cur = *reader;
        let packet_header = PacketHeader::read(&mut cur)?;
        let mut payload = cur.window(packet_header.incl_len);
        assert(payload.remaining() =~= payload.bytes());
        let mut seek_shift: u64 = u64::from(packet_header.incl_len);
        let eth_header = EthHdr::read(&mut payload)?;
        seek_shift = seek_shift - u64::from(ETH_HEADER_SIZE);

        if self.args.filter.filter_type == FilterType::MAC {
            if self.cmp_eth(&eth_header) {
                result.increment(
                    u64::from(packet_header.incl_len),
                    u64::from(packet_header.orig_len),
                );
            }
            cur.seek_relative(payload.position());
            *reader = cur;
            return Ok(seek_shift);
        }
        let (to_add, read_bytes, protocol) = self.process_l3_hdr(&eth_header, &mut payload)?;
        seek_shift = seek_shift - read_bytes;
        if to_add {
            result.increment(u64::from(packet_header.incl_len), u64::from(packet_header.orig_len));
            cur.seek_relative(payload.position());
            *reader = cur;
            return Ok(seek_shift);
        }
        let protocol = match protocol {
            Some(protocol) => protocol,
            None => {
                cur.seek_relative(payload.position());
                *reader = cur;
                return Ok(seek_shift);
            },
        };
        let (to_add, read_bytes) = self.process_l4_hdr(protocol, &mut payload)?;
        seek_shift = seek_shift - read_bytes;
        if to_add {
            result.increment(u64::from(packet_header.incl_len), u64::from(packet_header.orig_len));
        }
        cur.seek_relative(payload.position());
        *reader = cur;
        Ok(seek_shift)
    }

    /// Whether the filter value is found at a selected end of the Ethernet header.
    pub fn cmp_eth(&self, eth_hdr: &EthHdr) -> (found: bool)
        ensures
            found == link_match(*self.args, eth_hdr@),
    {
        if self.args.direction.source && self.args.filter.value == eth_hdr.src {
            return true;
        }
        if self.args.direction.dst && self.args.filter.value == eth_hdr.dst {
            return true;
        }
        false
    }

    /// Decodes the network header that the Ethernet header announces.
    /// Returns whether it matches, the bytes it takes, and the protocol to
    /// decode next, if the decode is to go on. On an error the cursor stays
    /// where it was.
    pub fn process_l3_hdr(&self, eth_hdr: &EthHdr, reader: &mut ByteReader) -> (r: Result<
        (bool, u64, Option<Protocol>),
        DecodeError,
    >)
        requires
            old(reader).wf(),
        ensures
            r == network(*self.args, eth_hdr.ether_type, old(reader).remaining()),
            r matches Ok(found) ==> final(reader).advanced_from(old(reader), found.1 as int),
            r is Err ==> *final(reader) == *old(reader),
    {
        match eth_hdr.ether_type {
            EthType::ARP => Ok((false, 0, None)),
            EthType::ATA => Ok((false, 0, None)),
            EthType::IPv4 => Ok(self.process_ipv4(reader)?),
            EthType::IPv6 => Ok(self.process_ipv6(reader)?),
        }
    }

    /// Decodes an IPv4 header and, under an IPv4 filter, holds it against
    /// the filter. On an error the cursor stays where it was.
    pub fn process_ipv4(&self, reader: &mut ByteReader) -> (r: Result<
        (bool, u64, Option<Protocol>),
        DecodeError,
    >)
        requires
            old(reader).wf(),
        ensures
            r == network_v4(*self.args, old(reader).remaining()),
            r is Ok ==> final(reader).advanced_from(old(reader), 20),
            r is Err ==> *final(reader) == *old(reader),
    {
        let header = IPv4Header::read(reader)?;
        let mut protocol: Option<Protocol> = Some(header.protocol);

        if self.args.filter.filter_type == FilterType::IPv4 {
            protocol = None;
            let value_address = match self.args.filter.address {
                Some(IpLiteral::V4(addr)) => addr,
                _ => {
                    return Ok((false, IPV4_HEADER_SIZE as u64, protocol));
                },
            };

            if (self.args.direction.source && value_address == header.source_addr) || (
            self.args.direction.dst && value_address == header.dst_addr) {
                return Ok((true, IPV4_HEADER_SIZE as u64, protocol));
            }
        }
        Ok((false, IPV4_HEADER_SIZE as u64, protocol))
    }

    /// Decodes an IPv6 header and, under an IPv6 filter, holds it against
    /// the filter. On an error the cursor stays where it was.
    pub fn process_ipv6(&self, reader: &mut ByteReader) -> (r: Result<
        (bool, u64, Option<Protocol>),
        DecodeError,
    >)
        requires
            old(reader).wf(),
        ensures
            r == network_v6(*self.args, old(reader).remaining()),
            r is Ok ==> final(reader).advanced_from(old(reader), 40),
            r is Err ==> *final(reader) == *old(reader),
    {
        let header = IPv6Header::read(reader)?;
        let mut protocol: Option<Protocol> = Some(header.protocol);

        if self.args.filter.filter_type == FilterType::IPv6 {
            protocol = None;
            let value_address = match self.args.filter.address {
                Some(IpLiteral::V6(addr)) => addr,
                _ => {
                    return Ok((false, IPV6_HEADER_SIZE as u64, protocol));
                },
            };

            if (self.args.direction.source && value_address == header.source_addr) || (
            self.args.direction.dst && value_address == header.dst_addr) {
                return Ok((true, IPV6_HEADER_SIZE as u64, protocol));
            }
        }
        Ok((false, IPV6_HEADER_SIZE as u64, protocol))
    }

    /// Decodes the transport header of `protocol` and holds its ports against
    /// the filter. ICMP and IGMP have no header to decode here. On an error
    /// the cursor stays where it was.
    pub fn process_l4_hdr(&self, protocol: Protocol, reader: &mut ByteReader) -> (r: Result<
        (bool, u64),
        DecodeError,
    >)
        requires
            old(reader).wf(),
        ensures
            r == transport(*self.args, protocol, old(reader).remaining()),
            r matches Ok(found) ==> final(reader).advanced_from(old(reader), found.1 as int),
            r is Err ==> *final(reader) == *old(reader),
    {
        let (length, source_port, dst_port, check) = match protocol {
            Protocol::TCP => {
                let header = TcpHdr::read(reader)?;
                (
                    TCP_HEADER_SIZE as u64,
                    header.source_port,
                    header.dst_port,
                    self.check_proto(FilterType::TCP),
                )
            },
            Protocol::UDP => {
                let header = UdpHdr::read(reader)?;
                (
                    UDP_HEADER_SIZE as u64,
                    header.source_port,
                    header.dst_port,
                    self.check_proto(FilterType::UDP),
                )
            },
            _ => {
                return Ok((false, 0));
            },
        };

        if check {
            match parse_unsigned(self.args.filter.value.as_str(), 0xFFFF) {
                Some(filter_value) => {
                    if (self.args.direction.source && filter_value == source_port as u64) || (
                    self.args.direction.dst && filter_value == dst_port as u64) {
                        return Ok((true, length));
                    }
                },
                None => {},
            }
        }
        Ok((false, length))
    }

    /// Whether the filter is of the kind `proto`.
    pub fn check_proto(&self, proto: FilterType) -> (same: bool)
        ensures
            same == (self.args.filter.filter_type == proto),
    {
        if self.args.filter.filter_type == proto {
            return true;
        }
        false
    }
}

} // verus!
