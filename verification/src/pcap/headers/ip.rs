use crate::pcap::bytes::{be_u128, be_u16, be_u32, ByteReader};
use crate::pcap::error::DecodeError;
use vstd::prelude::*;

verus! {

/// Bytes of an IPv4 header. Options are never read.
pub const IPV4_HEADER_SIZE: u8 = 20;

/// Bytes of an IPv6 header.
pub const IPV6_HEADER_SIZE: u8 = 40;

/// The protocols that a network header may announce.
#[derive(Debug, Clone, Copy, PartialEq, Eq, Structural)]
pub enum Protocol {
    ICMP,
    IGMP,
    TCP,
    UDP,
}

impl Protocol {
    /// The protocol that the number `value` stands for.
    pub open spec fn resolved(value: u8) -> Result<Protocol, DecodeError> {
        if value == 1 {
            Ok(Protocol::ICMP)
        } else if value == 2 {
            Ok(Protocol::IGMP)
        } else if value == 6 {
            Ok(Protocol::TCP)
        } else if value == 17 {
            Ok(Protocol::UDP)
        } else {
            Err(DecodeError::UnknownProtocolTag)
        }
    }

    /// The number that stands for this protocol on the wire.
    pub open spec fn spec_code(self) -> u8 {
        match self {
            Protocol::ICMP => 1,
            Protocol::IGMP => 2,
            Protocol::TCP => 6,
            Protocol::UDP => 17,
        }
    }

    /// The number that stands for this protocol on the wire.
    #[verifier::when_used_as_spec(spec_code)]
    pub fn code(self) -> (c: u8)
        ensures
            c == self.spec_code(),
            Protocol::resolved(c) == Ok::<Protocol, DecodeError>(self),
    {
        match self {
            Protocol::ICMP => 1,
            Protocol::IGMP => 2,
            Protocol::TCP => 6,
            Protocol::UDP => 17,
        }
    }

    /// Resolves a protocol number. Any number outside the recognized set is an error.
    pub fn try_from(value: u8) -> (r: Result<Protocol, DecodeError>)
        ensures
            r == Protocol::resolved(value),
    {
        if value == Protocol::ICMP.code() {
            Ok(Protocol::ICMP)
        } else if value == Protocol::IGMP.code() {
            Ok(Protocol::IGMP)
        } else if value == Protocol::TCP.code() {
            Ok(Protocol::TCP)
        } else if value == Protocol::UDP.code() {
            Ok(Protocol::UDP)
        } else {
            Err(DecodeError::UnknownProtocolTag)
        }
    }
}

/// An IPv4 header. An address is held as the integer that its four bytes
/// spell in network order.
#[derive(Debug, Clone, Copy, PartialEq, Eq, Structural)]
pub struct IPv4Header {
    pub version: u8,
    pub ts: u8,
    pub total_length: u16,
    pub id: u16,
    pub flags: u16,
    pub ttl: u8,
    pub protocol: Protocol,
    pub csum: u16,
    pub source_addr: u32,
    pub dst_addr: u32,
}

impl IPv4Header {
    /// What the bytes `b` hold when they start with an IPv4 header.
    #[verifier::opaque]
    pub open spec fn decoded(b: Seq<u8>) -> Result<IPv4Header, DecodeError> {
        if b.len() < 20 {
            Err(DecodeError::TruncatedInput)
        } else {
            match Protocol::resolved(b[9]) {
                Err(e) => Err(e),
                Ok(protocol) => Ok(
                    IPv4Header {
                        version: b[0],
                        ts: b[1],
                        total_length: be_u16(b.skip(2)),
                        id: be_u16(b.skip(4)),
                        flags: be_u16(b.skip(6)),
                        ttl: b[8],
                        protocol,
                        csum: be_u16(b.skip(10)),
                        source_addr: be_u32(b.skip(12)),
                        dst_addr: be_u32(b.skip(16)),
                    },
                ),
            }
        }
    }

    /// Decodes the twenty bytes of an IPv4 header. On an error the cursor
    /// stays where it was.
    pub fn read(reader: &mut ByteReader) -> (r: Result<Self, DecodeError>)
        requires
            old(reader).wf(),
        ensures
            r == Self::decoded(old(reader).remaining()),
            r is Ok ==> final(reader).advanced_from(old(reader), 20),
            r is Err ==> *final(reader) == *old(reader),
    {
        proof {
            reveal(IPv4Header::decoded);
        }
        let mut cur = *reader;
        if cur.available() < 20 {
            return Err(DecodeError::TruncatedInput);
        }
        let version = cur.read_u8()?;
        let ts = cur.read_u8()?;
        let total_length = cur.read_u16_be()?;
        let id = cur.read_u16_be()?;
        let flags = cur.read_u16_be()?;
        let ttl = cur.read_u8()?;
        let protocol_number = cur.read_u8()?;
        let csum = cur.read_u16_be()?;
        let src_ip = Self::read_ip_address(&mut cur)?;
        let dst_ip = Self::read_ip_address(&mut cur)?;

        let protocol = match Protocol::try_from(protocol_number) {
            Ok(p) => p,
            Err(e) => {
                return Err(e);
            },
        };

        *reader = cur;
        Ok(
            Self {
                version,
                ts,
                total_length,
                id,
                flags,
                ttl,
                protocol,
                csum,
                source_addr: src_ip,
                dst_addr: dst_ip,
            },
        )
    }

    /// Reads the four bytes of an IPv4 address.
    pub fn read_ip_address(reader: &mut ByteReader) -> (r: Result<u32, DecodeError>)
        requires
            old(reader).wf(),
        ensures
            old(reader).remaining().len() >= 4 ==> r == Ok::<u32, DecodeError>(
                be_u32(old(reader).remaining()),
            ) && final(reader).advanced_from(old(reader), 4),
            old(reader).remaining().len() < 4 ==> r == Err::<u32, DecodeError>(
                DecodeError::TruncatedInput,
            ) && *final(reader) == *old(reader),
    {
        reader.read_u32_be()
    }
}

/// An IPv6 header. An address is held as the integer that its sixteen bytes
/// spell in network order.
#[derive(Debug, Clone, Copy, PartialEq, Eq, Structural)]
pub struct IPv6Header {
    pub vcf: u32,
    pub payload_length: u16,
    pub protocol: Protocol,
    pub hop_limit: u8,
    pub source_addr: u128,
    pub dst_addr: u128,
}

impl IPv6Header {
    /// What the bytes `b` hold when they start with an IPv6 header.
    #[verifier::opaque]
    pub open spec fn decoded(b: Seq<u8>) -> Result<IPv6Header, DecodeError> {
        if b.len() < 40 {
            Err(DecodeError::TruncatedInput)
        } else {
            match Protocol::resolved(b[6]) {
                Err(e) => Err(e),
                Ok(protocol) => Ok(
                    IPv6Header {
                        vcf: be_u32(b),
                        payload_length: be_u16(b.skip(4)),
                        protocol,
                        hop_limit: b[7],
                        source_addr: be_u128(b.skip(8)),
                        dst_addr: be_u128(b.skip(24)),
                    },
                ),
            }
        }
    }

    /// Decodes the forty bytes of an IPv6 header. On an error the cursor
    /// stays where it was.
    pub fn read(reader: &mut ByteReader) -> (r: Result<Self, DecodeError>)
        requires
            old(reader).wf(),
        ensures
            r == Self::decoded(old(reader).remaining()),
            r is Ok ==> final(reader).advanced_from(old(reader), 40),
            r is Err ==> *final(reader) == *old(reader),
    {
        proof {
            reveal(IPv6Header::decoded);
        }
        let mut cur = *reader;
        if cur.available() < 40 {
            return Err(DecodeError::TruncatedInput);
        }
        let vcf = cur.read_u32_be()?;
        let payload_length = cur.read_u16_be()?;
        let protocol_number = cur.read_u8()?;
        let hop_limit = cur.read_u8()?;
        let source_addr = Self::read_ip_address(&mut cur)?;
        let dst_addr = Self::read_ip_address(&mut cur)?;

        let protocol = match Protocol::try_from(protocol_number) {
            Ok(p) => p,
            Err(e) => {
                return Err(e);
            },
        };

        *reader = cur;
        Ok(Self { vcf, payload_length, protocol, hop_limit, source_addr, dst_addr })
    }

    /// Reads the sixteen bytes of an IPv6 address.
    pub fn read_ip_address(reader: &mut ByteReader) -> (r: Result<u128, DecodeError>)
        requires
            old(reader).wf(),
        ensures
            old(reader).remaining().len() >= 16 ==> r == Ok::<u128, DecodeError>(
                be_u128(old(reader).remaining()),
            ) && final(reader).advanced_from(old(reader), 16),
            old(reader).remaining().len() < 16 ==> r == Err::<u128, DecodeError>(
                DecodeError::TruncatedInput,
            ) && *final(reader) == *old(reader),
    {
        reader.read_u128_be()
    }
}

} // verus!
