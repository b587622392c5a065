use crate::pcap::bytes::{be_u16, ByteReader};
use crate::pcap::error::DecodeError;
use vstd::prelude::*;

verus! {

/// Bytes of a UDP header.
pub const UDP_HEADER_SIZE: u8 = 8;

/// A UDP header.
#[derive(Debug, Clone, Copy, PartialEq, Eq, Structural)]
pub struct UdpHdr {
    pub source_port: u16,
    pub dst_port: u16,
    pub length: u16,
    pub checksum: u16,
}

impl UdpHdr {
    /// What the bytes `b` hold when they start with a UDP header.
    #[verifier::opaque]
    pub open spec fn decoded(b: Seq<u8>) -> Result<UdpHdr, DecodeError> {
        if b.len() < 8 {
            Err(DecodeError::TruncatedInput)
        } else {
            Ok(
                UdpHdr {
                    source_port: be_u16(b),
                    dst_port: be_u16(b.skip(2)),
                    length: be_u16(b.skip(4)),
                    checksum: be_u16(b.skip(6)),
                },
            )
        }
    }

    /// Decodes the eight bytes of a UDP header. On an error the cursor stays
    /// where it was.
    pub fn read(reader: &mut ByteReader) -> (r: Result<UdpHdr, DecodeError>)
        requires
            old(reader).wf(),
        ensures
            r == Self::decoded(old(reader).remaining()),
            r is Ok ==> final(reader).advanced_from(old(reader), 8),
            r is Err ==> *final(reader) == *old(reader),
    {
        proof {
            reveal(UdpHdr::decoded);
        }
        let mut cur = *reader;
        if cur.available() < 8 {
            return Err(DecodeError::TruncatedInput);
        }
        let source_port = cur.read_u16_be()?;
        let dst_port = cur.read_u16_be()?;
        let length = cur.read_u16_be()?;
        let checksum = cur.read_u16_be()?;

        *reader = cur;
        Ok(Self { source_port, dst_port, length, checksum })
    }
}

} // verus!
