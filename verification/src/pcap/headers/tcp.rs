use crate::pcap::bytes::{be_u16, be_u32, ByteReader};
use crate::pcap::error::DecodeError;
use vstd::prelude::*;

verus! {

/// Bytes of a TCP header. Options are never read.
pub const TCP_HEADER_SIZE: u8 = 20;

/// A TCP header.
#[derive(Debug, Clone, Copy, PartialEq, Eq, Structural)]
pub struct TcpHdr {
    pub source_port: u16,
    pub dst_port: u16,
    pub seq_num: u32,
    pub ack_num: u32,
    pub do_rsv_flags: u16,
    pub window: u16,
    pub checksum: u16,
    pub urgent_ptr: u16,
}

impl TcpHdr {
    /// What the bytes `b` hold when they start with a TCP header.
    #[verifier::opaque]
    pub open spec fn decoded(b: Seq<u8>) -> Result<TcpHdr, DecodeError> {
        if b.len() < 20 {
            Err(DecodeError::TruncatedInput)
        } else {
            Ok(
                TcpHdr {
                    source_port: be_u16(b),
                    dst_port: be_u16(b.skip(2)),
                    seq_num: be_u32(b.skip(4)),
                    ack_num: be_u32(b.skip(8)),
                    do_rsv_flags: be_u16(b.skip(12)),
                    window: be_u16(b.skip(14)),
                    checksum: be_u16(b.skip(16)),
                    urgent_ptr: be_u16(b.skip(18)),
                },
            )
        }
    }

    /// Decodes the twenty bytes of a TCP header. On an error the cursor stays
    /// where it was.
    pub fn read(reader: &mut ByteReader) -> (r: Result<TcpHdr, DecodeError>)
        requires
            old(reader).wf(),
        ensures
            r == Self::decoded(old(reader).remaining()),
            r is Ok ==> final(reader).advanced_from(old(reader), 20),
            r is Err ==> *final(reader) == *old(reader),
    {
        proof {
            reveal(TcpHdr::decoded);
        }
        let mut cur = *reader;
        if cur.available() < 20 {
            return Err(DecodeError::TruncatedInput);
        }
        let source_port = cur.read_u16_be()?;
        let dst_port = cur.read_u16_be()?;
        let seq_num = cur.read_u32_be()?;
        let ack_num = cur.read_u32_be()?;
        let do_rsv_flags = cur.read_u16_be()?;
        let window = cur.read_u16_be()?;
        let checksum = cur.read_u16_be()?;
        let urgent_ptr = cur.read_u16_be()?;

        *reader = cur;
        Ok(
            Self {
                source_port,
                dst_port,
                seq_num,
                ack_num,
                do_rsv_flags,
                window,
                checksum,
                urgent_ptr,
            },
        )
    }
}

} // verus!
