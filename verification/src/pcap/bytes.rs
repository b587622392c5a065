use crate::pcap::error::DecodeError;
use byteorder::ByteOrder;
use vstd::prelude::*;
use vstd::slice::slice_subrange;

verus! {

/// The first two bytes of `b` read as an unsigned integer, most significant byte first.
pub open spec fn be_u16(b: Seq<u8>) -> u16
    recommends
        b.len() >= 2,
{
    (b[0] * 0x100 + b[1]) as u16
}

/// The first four bytes of `b` read as an unsigned integer, most significant byte first.
pub open spec fn be_u32(b: Seq<u8>) -> u32
    recommends
        b.len() >= 4,
{
    (b[0] * 0x100_0000 + b[1] * 0x1_0000 + b[2] * 0x100 + b[3]) as u32
}

/// The first sixteen bytes of `b` read as an unsigned integer, most significant byte first.
pub open spec fn be_u128(b: Seq<u8>) -> u128
    recommends
        b.len() >= 16,
{
    (be_u32(b) * 0x1_0000_0000_0000_0000_0000_0000 + be_u32(b.skip(4)) * 0x1_0000_0000_0000_0000
        + be_u32(b.skip(8)) * 0x1_0000_0000 + be_u32(b.skip(12))) as u128
}

/// The first two bytes of `b` read as an unsigned integer, least significant byte first.
pub open spec fn le_u16(b: Seq<u8>) -> u16
    recommends
        b.len() >= 2,
{
    (b[0] + b[1] * 0x100) as u16
}

/// The first four bytes of `b` read as an unsigned integer, least significant byte first.
pub open spec fn le_u32(b: Seq<u8>) -> u32
    recommends
        b.len() >= 4,
{
    (b[0] + b[1] * 0x100 + b[2] * 0x1_0000 + b[3] * 0x100_0000) as u32
}

/// The first four bytes of `b` read as a two's complement integer, least significant byte first.
pub open spec fn le_i32(b: Seq<u8>) -> i32
    recommends
        b.len() >= 4,
{
    if le_u32(b) < 0x8000_0000 {
        le_u32(b) as i32
    } else {
        (le_u32(b) - 0x1_0000_0000) as i32
    }
}

/// Calls `byteorder::BigEndian::read_u16` (under its alias `NetworkEndian`).
/// Trusted: the result is `u16::from_be_bytes` of the first two bytes of `buf`.
/// The outside function panics on a shorter buffer, which `requires` leaves out.
#[verifier::external_body]
fn network_u16(buf: &[u8]) -> (v: u16)
    requires
        buf@.len() >= 2,
    ensures
        v == be_u16(buf@),
{
    byteorder::NetworkEndian::read_u16(buf)
}

/// Calls `byteorder::BigEndian::read_u32` (under its alias `NetworkEndian`).
/// Trusted: the result is `u32::from_be_bytes` of the first four bytes of `buf`.
/// The outside function panics on a shorter buffer, which `requires` leaves out.
#[verifier::external_body]
fn network_u32(buf: &[u8]) -> (v: u32)
    requires
        buf@.len() >= 4,
    ensures
        v == be_u32(buf@),
{
    byteorder::NetworkEndian::read_u32(buf)
}

/// Calls `byteorder::LittleEndian::read_u16`.
/// Trusted: the result is `u16::from_le_bytes` of the first two bytes of `buf`.
/// The outside function panics on a shorter buffer, which `requires` leaves out.
#[verifier::external_body]
fn little_u16(buf: &[u8]) -> (v: u16)
    requires
        buf@.len() >= 2,
    ensures
        v == le_u16(buf@),
{
    byteorder::LittleEndian::read_u16(buf)
}

/// Calls `byteorder::LittleEndian::read_u32`.
/// Trusted: the result is `u32::from_le_bytes` of the first four bytes of `buf`.
/// The outside function panics on a shorter buffer, which `requires` leaves out.
#[verifier::external_body]
fn little_u32(buf: &[u8]) -> (v: u32)
    requires
        buf@.len() >= 4,
    ensures
        v == le_u32(buf@),
{
    byteorder::LittleEndian::read_u32(buf)
}

/// Calls `byteorder::LittleEndian::read_i32`.
/// Trusted: the result is what `read_u32` gives for the same bytes, cast to
/// `i32`, so values from 2^31 on come out negative.
/// The outside function panics on a shorter buffer, which `requires` leaves out.
#[verifier::external_body]
fn little_i32(buf: &[u8]) -> (v: i32)
    requires
        buf@.len() >= 4,
    ensures
        v == le_i32(buf@),
{
    byteorder::LittleEndian::read_i32(buf)
}

/// A forward-only cursor over bytes held in memory. A read that fails for
/// want of bytes leaves the cursor where it was.
#[derive(Clone, Copy, Debug)]
pub struct ByteReader<'a> {
    data: &'a [u8],
    pos: usize,
}

impl<'a> ByteReader<'a> {
    /// All the bytes under the cursor, read or not.
    pub closed spec fn bytes(&self) -> Seq<u8> {
        self.data@
    }

    /// How many bytes have been passed.
    pub closed spec fn offset(&self) -> int {
        self.pos as int
    }

    /// The cursor stands inside its bytes, or at their end.
    pub open spec fn wf(&self) -> bool {
        0 <= self.offset() <= self.bytes().len()
    }

    /// The bytes that have not been passed yet.
    pub open spec fn remaining(&self) -> Seq<u8> {
        self.bytes().skip(self.offset())
    }

    /// `self` is `before` moved on by `n` bytes.
    pub open spec fn advanced_from(&self, before: &Self, n: int) -> bool {
        &&& self.wf()
        &&& self.bytes() == before.bytes()
        &&& self.offset() == before.offset() + n
    }

    /// A cursor at the start of `data`.
    pub fn new(data: &'a [u8]) -> (r: Self)
        ensures
            r.wf(),
            r.bytes() == data@,
            r.offset() == 0,
    {
        ByteReader { data, pos: 0 }
    }

    /// How many bytes have been passed.
    pub fn position(&self) -> (p: u64)
        ensures
            p == self.offset(),
    {
        self.pos as u64
    }

    /// How many bytes are left.
    pub fn available(&self) -> (n: usize)
        requires
            self.wf(),
        ensures
            n == self.remaining().len(),
    {
        self.data.len() - self.pos
    }

    /// The next `n` bytes, which the cursor passes.
    fn take(&mut self, n: usize) -> (s: &'a [u8])
        requires
            old(self).wf(),
            n <= old(self).remaining().len(),
        ensures
            final(self).advanced_from(old(self), n as int),
            s@ == old(self).remaining().take(n as int),
    {
        assert(self.data@.len() == self.data.len());
        let s = slice_subrange(self.data, self.pos, self.pos + n);
        self.pos = self.pos + n;
        s
    }

    /// Reads one byte.
    pub fn read_u8(&mut self) -> (r: Result<u8, DecodeError>)
        requires
            old(self).wf(),
        ensures
            old(self).remaining().len() >= 1 ==> r == Ok::<u8, DecodeError>(
                old(self).remaining()[0],
            ) && final(self).advanced_from(old(self), 1),
            old(self).remaining().len() < 1 ==> r == Err::<u8, DecodeError>(
                DecodeError::TruncatedInput,
            ) && *final(self) == *old(self),
    {
        if self.available() < 1 {
            return Err(DecodeError::TruncatedInput);
        }
        let s = self.take(1);
        Ok(s[0])
    }

    /// Reads two bytes as an unsigned integer in network (big-endian) order.
    pub fn read_u16_be(&mut self) -> (r: Result<u16, DecodeError>)
        requires
            old(self).wf(),
        ensures
            old(self).remaining().len() >= 2 ==> r == Ok::<u16, DecodeError>(
                be_u16(old(self).remaining()),
            ) && final(self).advanced_from(old(self), 2),
            old(self).remaining().len() < 2 ==> r == Err::<u16, DecodeError>(
                DecodeError::TruncatedInput,
            ) && *final(self) == *old(self),
    {
        if self.available() < 2 {
            return Err(DecodeError::TruncatedInput);
        }
        let s = self.take(2);
        Ok(network_u16(s))
    }

    /// Reads four bytes as an unsigned integer in network (big-endian) order.
    pub fn read_u32_be(&mut self) -> (r: Result<u32, DecodeError>)
        requires
            old(self).wf(),
        ensures
            old(self).remaining().len() >= 4 ==> r == Ok::<u32, DecodeError>(
                be_u32(old(self).remaining()),
            ) && final(self).advanced_from(old(self), 4),
            old(self).remaining().len() < 4 ==> r == Err::<u32, DecodeError>(
                DecodeError::TruncatedInput,
            ) && *final(self) == *old(self),
    {
        if self.available() < 4 {
            return Err(DecodeError::TruncatedInput);
        }
        let s = self.take(4);
        Ok(network_u32(s))
    }

    /// Reads sixteen bytes as an unsigned integer in network (big-endian) order.
    pub fn read_u128_be(&mut self) -> (r: Result<u128, DecodeError>)
        requires
            old(self).wf(),
        ensures
            old(self).remaining().len() >= 16 ==> r == Ok::<u128, DecodeError>(
                be_u128(old(self).remaining()),
            ) && final(self).advanced_from(old(self), 16),
            old(self).remaining().len() < 16 ==> r == Err::<u128, DecodeError>(
                DecodeError::TruncatedInput,
            ) && *final(self) == *old(self),
    {
        if self.available() < 16 {
            return Err(DecodeError::TruncatedInput);
        }
        let a = network_u32(self.take(4));
        let b = network_u32(self.take(4));
        let c = network_u32(self.take(4));
        let d = network_u32(self.take(4));
        let hi: u128 = u128::from(a) * 0x1_0000_0000_0000_0000_0000_0000 + u128::from(b)
            * 0x1_0000_0000_0000_0000;
        let lo: u128 = u128::from(c) * 0x1_0000_0000 + u128::from(d);
        Ok(hi + lo)
    }

    /// Reads two bytes as an unsigned integer in little-endian order.
    pub fn read_u16_le(&mut self) -> (r: Result<u16, DecodeError>)
        requires
            old(self).wf(),
        ensures
            old(self).remaining().len() >= 2 ==> r == Ok::<u16, DecodeError>(
                le_u16(old(self).remaining()),
            ) && final(self).advanced_from(old(self), 2),
            old(self).remaining().len() < 2 ==> r == Err::<u16, DecodeError>(
                DecodeError::TruncatedInput,
            ) && *final(self) == *old(self),
    {
        if self.available() < 2 {
            return Err(DecodeError::TruncatedInput);
        }
        let s = self.take(2);
        Ok(little_u16(s))
    }

    /// Reads four bytes as an unsigned integer in little-endian order.
    pub fn read_u32_le(&mut self) -> (r: Result<u32, DecodeError>)
        requires
            old(self).wf(),
        ensures
            old(self).remaining().len() >= 4 ==> r == Ok::<u32, DecodeError>(
                le_u32(old(self).remaining()),
            ) && final(self).advanced_from(old(self), 4),
            old(self).remaining().len() < 4 ==> r == Err::<u32, DecodeError>(
                DecodeError::TruncatedInput,
            ) && *final(self) == *old(self),
    {
        if self.available() < 4 {
            return Err(DecodeError::TruncatedInput);
        }
        let s = self.take(4);
        Ok(little_u32(s))
    }

    /// Reads four bytes as a signed integer in little-endian order.
    pub fn read_i32_le(&mut self) -> (r: Result<i32, DecodeError>)
        requires
            old(self).wf(),
        ensures
            old(self).remaining().len() >= 4 ==> r == Ok::<i32, DecodeError>(
                le_i32(old(self).remaining()),
            ) && final(self).advanced_from(old(self), 4),
            old(self).remaining().len() < 4 ==> r == Err::<i32, DecodeError>(
                DecodeError::TruncatedInput,
            ) && *final(self) == *old(self),
    {
        if self.available() < 4 {
            return Err(DecodeError::TruncatedInput);
        }
        let s = self.take(4);
        Ok(little_i32(s))
    }

    /// Moves the cursor on by `n` bytes, and no further than the end.
    pub fn seek_relative(&mut self, n: u64)
        requires
            old(self).wf(),
        ensures
            final(self).wf(),
            final(self).bytes() == old(self).bytes(),
            final(self).offset() == if n <= old(self).remaining().len() {
                old(self).offset() + n
            } else {
                old(self).bytes().len() as int
            },
    {
        assert(self.data@.len() == self.data.len());
        let left = self.available();
        if n <= left as u64 {
            self.pos = self.pos + n as usize;
        } else {
            self.pos = self.data.len();
        }
    }

    /// A cursor of its own over the next `n` bytes, or over all that is left
    /// where that is less. `self` does not move.
    pub fn window(&self, n: u32) -> (w: ByteReader<'a>)
        requires
            self.wf(),
        ensures
            w.wf(),
            w.offset() == 0,
            w.bytes() == if n <= self.remaining().len() {
                self.remaining().take(n as int)
            } else {
                self.remaining()
            },
    {
        assert(self.data@.len() == self.data.len());
        let left = self.available();
        let end = if (n as u64) <= (left as u64) {
            self.pos + n as usize
        } else {
            self.data.len()
        };
        ByteReader { data: slice_subrange(self.data, self.pos, end), pos: 0 }
    }
}

} // verus!
