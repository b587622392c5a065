use crate::pcap::bytes::{le_i32, le_u16, le_u32, ByteReader};
use crate::pcap::error::DecodeError;
use vstd::prelude::*;

verus! {

/// Bytes of the header that opens a capture file.
pub const PCAP_FILE_HEADER_SIZE: u8 = 24;

/// Bytes of the header that opens each record.
pub const PACKET_HEADER_SIZE: u8 = 16;

/// The header that opens a capture file. Its fields are kept as they are
/// found; none is checked.
#[derive(Debug, Clone, Copy, PartialEq, Eq, Structural)]
pub struct PcapFileHeader {
    pub magic_number: u32,
    pub version_major: u16,
    pub version_minor: u16,
    pub thiszone: i32,
    pub sigfigs: u32,
    pub snaplen: u32,
    pub network: u32,
}

impl PcapFileHeader {
    /// What the bytes `b` hold when they start with a file header.
    pub open spec fn decoded(b: Seq<u8>) -> Result<PcapFileHeader, DecodeError> {
        if b.len() < 24 {
            Err(DecodeError::TruncatedInput)
        } else {
            Ok(
                PcapFileHeader {
                    magic_number: le_u32(b),
                    version_major: le_u16(b.skip(4)),
                    version_minor: le_u16(b.skip(6)),
                    thiszone: le_i32(b.skip(8)),
                    sigfigs: le_u32(b.skip(12)),
                    snaplen: le_u32(b.skip(16)),
                    network: le_u32(b.skip(20)),
                },
            )
        }
    }

    /// Decodes the twenty-four bytes of a file header. On an error the cursor
    /// stays where it was.
    pub fn read(reader: &mut ByteReader) -> (r: Result<Self, DecodeError>)
        requires
            old(reader).wf(),
        ensures
            r == Self::decoded(old(reader).remaining()),
            r is Ok ==> final(reader).advanced_from(old(reader), 24),
            r is Err ==> *final(reader) == *old(reader),
    {
        let mut cur = *reader;
        if cur.available() < 24 {
            return Err(DecodeError::TruncatedInput);
        }
        let magic_number = cur.read_u32_le()?;
        let version_major = cur.read_u16_le()?;
        let version_minor = cur.read_u16_le()?;
        let thiszone = cur.read_i32_le()?;
        let sigfigs = cur.read_u32_le()?;
        let snaplen = cur.read_u32_le()?;
        let network = cur.read_u32_le()?;

        *reader = cur;
        Ok(
            Self {
                magic_number,
                version_major,
                version_minor,
                thiszone,
                sigfigs,
                snaplen,
                network,
            },
        )
    }
}

/// The header that opens each record. Of its fields only the two lengths
/// have a part in the scan.
#[derive(Debug, Clone, Copy, PartialEq, Eq, Structural)]
pub struct PacketHeader {
    pub ts_sec: u32,
    pub ts_usec: u32,
    pub incl_len: u32,
    pub orig_len: u32,
}

impl PacketHeader {
    /// What the bytes `b` hold when they start with a record header.
    pub open spec fn decoded(b: Seq<u8>) -> Result<PacketHeader, DecodeError> {
        if b.len() < 16 {
            Err(DecodeError::TruncatedInput)
        } else {
            Ok(
                PacketHeader {
                    ts_sec: le_u32(b),
                    ts_usec: le_u32(b.skip(4)),
                    incl_len: le_u32(b.skip(8)),
                    orig_len: le_u32(b.skip(12)),
                },
            )
        }
    }

    /// Decodes the sixteen bytes of a record header. On an error the cursor
    /// stays where it was.
    pub fn read(reader: &mut ByteReader) -> (r: Result<Self, DecodeError>)
        requires
            old(reader).wf(),
        ensures
            r == Self::decoded(old(reader).remaining()),
            r is Ok ==> final(reader).advanced_from(old(reader), 16),
            r is Err ==> *final(reader) == *old(reader),
    {
        let mut cur = *reader;
        if cur.available() < 16 {
            return Err(DecodeError::TruncatedInput);
        }
        let ts_sec = cur.read_u32_le()?;
        let ts_usec = cur.read_u32_le()?;
        let incl_len = cur.read_u32_le()?;
        let orig_len = cur.read_u32_le()?;

        *reader = cur;
        Ok(Self { ts_sec, ts_usec, incl_len, orig_len })
    }
}

} // verus!
