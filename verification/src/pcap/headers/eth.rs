use crate::pcap::bytes::{be_u16, ByteReader};
use crate::pcap::error::DecodeError;
use vstd::prelude::*;
use vstd::string::StringExecFns;

verus! {

/// Bytes of an Ethernet header.
pub const ETH_HEADER_SIZE: u8 = 14;

/// The payload kinds that an Ethernet header may announce.
#[derive(Debug, Clone, Copy, PartialEq, Eq, Structural)]
pub enum EthType {
    IPv4,
    ARP,
    IPv6,
    ATA,
}

impl EthType {
    /// The payload kind that the number `value` stands for.
    pub open spec fn resolved(value: u16) -> Result<EthType, DecodeError> {
        if value == 0x0800 {
            Ok(EthType::IPv4)
        } else if value == 0x0806 {
            Ok(EthType::ARP)
        } else if value == 0x86DD {
            Ok(EthType::IPv6)
        } else if value == 0x88A2 {
            Ok(EthType::ATA)
        } else {
            Err(DecodeError::UnknownProtocolTag)
        }
    }

    /// The number that stands for this payload kind on the wire.
    pub open spec fn spec_code(self) -> u16 {
        match self {
            EthType::IPv4 => 0x0800,
            EthType::ARP => 0x0806,
            EthType::IPv6 => 0x86DD,
            EthType::ATA => 0x88A2,
        }
    }

    /// The number that stands for this payload kind on the wire.
    #[verifier::when_used_as_spec(spec_code)]
    pub fn code(self) -> (c: u16)
        ensures
            c == self.spec_code(),
            EthType::resolved(c) == Ok::<EthType, DecodeError>(self),
    {
        match self {
            EthType::IPv4 => 0x0800,
            EthType::ARP => 0x0806,
            EthType::IPv6 => 0x86DD,
            EthType::ATA => 0x88A2,
        }
    }

    /// Resolves an EtherType number. Any number outside the recognized set is an error.
    pub fn try_from(value: u16) -> (r: Result<EthType, DecodeError>)
        ensures
            r == EthType::resolved(value),
    {
        if value == EthType::IPv4.code() {
            Ok(EthType::IPv4)
        } else if value == EthType::ARP.code() {
            Ok(EthType::ARP)
        } else if value == EthType::IPv6.code() {
            Ok(EthType::IPv6)
        } else if value == EthType::ATA.code() {
            Ok(EthType::ATA)
        } else {
            Err(DecodeError::UnknownProtocolTag)
        }
    }
}

/// The lowercase hexadecimal digit for `n`; the last digit stands for any
/// `n` from fifteen on.
pub open spec fn hex_digit(n: int) -> char {
    if n == 0 {
        '0'
    } else if n == 1 {
        '1'
    } else if n == 2 {
        '2'
    } else if n == 3 {
        '3'
    } else if n == 4 {
        '4'
    } else if n == 5 {
        '5'
    } else if n == 6 {
        '6'
    } else if n == 7 {
        '7'
    } else if n == 8 {
        '8'
    } else if n == 9 {
        '9'
    } else if n == 10 {
        'a'
    } else if n == 11 {
        'b'
    } else if n == 12 {
        'c'
    } else if n == 13 {
        'd'
    } else if n == 14 {
        'e'
    } else {
        'f'
    }
}

/// One byte as two lowercase hexadecimal digits.
pub open spec fn octet_text(v: u8) -> Seq<char> {
    seq![hex_digit(v as int / 16), hex_digit(v as int % 16)]
}

/// The first six bytes of `b` as a MAC address in text: six octets of two
/// lowercase hexadecimal digits each, with a colon between them.
pub open spec fn mac_text(b: Seq<u8>) -> Seq<char>
    recommends
        b.len() >= 6,
{
    octet_text(b[0]) + seq![':'] + octet_text(b[1]) + seq![':'] + octet_text(b[2]) + seq![':']
        + octet_text(b[3]) + seq![':'] + octet_text(b[4]) + seq![':'] + octet_text(b[5])
}

/// The text of one hexadecimal digit.
pub fn hex_str(n: u8) -> (s: &'static str)
    ensures
        s@ == seq![hex_digit(n as int)],
{
    proof {
        reveal_strlit("0");
        reveal_strlit("1");
        reveal_strlit("2");
        reveal_strlit("3");
        reveal_strlit("4");
        reveal_strlit("5");
        reveal_strlit("6");
        reveal_strlit("7");
        reveal_strlit("8");
        reveal_strlit("9");
        reveal_strlit("a");
        reveal_strlit("b");
        reveal_strlit("c");
        reveal_strlit("d");
        reveal_strlit("e");
        reveal_strlit("f");
    }
    let s = if n == 0 {
        "0"
    } else if n == 1 {
        "1"
    } else if n == 2 {
        "2"
    } else if n == 3 {
        "3"
    } else if n == 4 {
        "4"
    } else if n == 5 {
        "5"
    } else if n == 6 {
        "6"
    } else if n == 7 {
        "7"
    } else if n == 8 {
        "8"
    } else if n == 9 {
        "9"
    } else if n == 10 {
        "a"
    } else if n == 11 {
        "b"
    } else if n == 12 {
        "c"
    } else if n == 13 {
        "d"
    } else if n == 14 {
        "e"
    } else {
        "f"
    };
    assert(s@ =~= seq![hex_digit(n as int)]);
    s
}

/// Appends one byte to `text` as two hexadecimal digits.
fn push_octet(text: &mut String, v: u8)
    ensures
        final(text)@ == old(text)@ + octet_text(v),
{
    text.append(hex_str(v / 16));
    text.append(hex_str(v % 16));
    assert(text@ =~= old(text)@ + octet_text(v));
}

/// Appends a colon to `text`.
fn push_colon(text: &mut String)
    ensures
        final(text)@ == old(text)@ + seq![':'],
{
    proof {
        reveal_strlit(":");
    }
    text.append(":");
    assert(text@ =~= old(text)@ + seq![':']);
}

/// An Ethernet header, with both addresses as text.
#[derive(Debug)]
pub struct EthHdr {
    pub dst: String,
    pub src: String,
    pub ether_type: EthType,
}

/// What an Ethernet header holds, as plain values.
pub struct EthFrame {
    pub dst: Seq<char>,
    pub src: Seq<char>,
    pub ether_type: EthType,
}

impl View for EthHdr {
    type V = EthFrame;

    open spec fn view(&self) -> EthFrame {
        EthFrame { dst: self.dst@, src: self.src@, ether_type: self.ether_type }
    }
}

impl EthHdr {
    /// What the bytes `b` hold when they start with an Ethernet header.
    #[verifier::opaque]
    pub open spec fn decoded(b: Seq<u8>) -> Result<EthFrame, DecodeError> {
        if b.len() < 14 {
            Err(DecodeError::TruncatedInput)
        } else {
            match EthType::resolved(be_u16(b.skip(12))) {
                Err(e) => Err(e),
                Ok(ether_type) => Ok(
                    EthFrame { dst: mac_text(b), src: mac_text(b.skip(6)), ether_type },
                ),
            }
        }
    }

    /// Decodes the fourteen bytes of an Ethernet header. On an error the
    /// cursor stays where it was.
    pub fn read(reader: &mut ByteReader) -> (r: Result<Self, DecodeError>)
        requires
            old(reader).wf(),
        ensures
            match r {
                Ok(h) => Self::decoded(old(reader).remaining()) == Ok::<EthFrame, DecodeError>(h@),
                Err(e) => Self::decoded(old(reader).remaining()) == Err::<EthFrame, DecodeError>(
                    e,
                ),
            },
            r is Ok ==> final(reader).advanced_from(old(reader), 14),
            r is Err ==> *final(reader) == *old(reader),
    {
        proof {
            reveal(EthHdr::decoded);
        }
        let mut cur = *reader;
        if cur.available() < 14 {
            return Err(DecodeError::TruncatedInput);
        }
        let dst = Self::read_mac_addr(&mut cur)?;
        let src = Self::read_mac_addr(&mut cur)?;
        let ether_type = match EthType::try_from(cur.read_u16_be()?) {
            Ok(ether_type) => ether_type,
            Err(e) => {
                return Err(e);
            },
        };

        *reader = cur;
        Ok(Self { dst, src, ether_type })
    }

    /// Reads six bytes and renders them as a MAC address in text.
    pub fn read_mac_addr(reader: &mut ByteReader) -> (r: Result<String, DecodeError>)
        requires
            old(reader).wf(),
        ensures
            old(reader).remaining().len() >= 6 ==> r is Ok && r->Ok_0@ == mac_text(
                old(reader).remaining(),
            ) && final(reader).advanced_from(old(reader), 6),
            old(reader).remaining().len() < 6 ==> r == Err::<String, DecodeError>(
                DecodeError::TruncatedInput,
            ) && *final(reader) == *old(reader),
    {
        if reader.available() < 6 {
            return Err(DecodeError::TruncatedInput);
        }
        let b0 = reader.read_u8()?;
        let b1 = reader.read_u8()?;
        let b2 = reader.read_u8()?;
        let b3 = reader.read_u8()?;
        let b4 = reader.read_u8()?;
        let b5 = reader.read_u8()?;
        let mut mac_addr = String::new();
        push_octet(&mut mac_addr, b0);
        push_colon(&mut mac_addr);
        push_octet(&mut mac_addr, b1);
        push_colon(&mut mac_addr);
        push_octet(&mut mac_addr, b2);
        push_colon(&mut mac_addr);
        push_octet(&mut mac_addr, b3);
        push_colon(&mut mac_addr);
        push_octet(&mut mac_addr, b4);
        push_colon(&mut mac_addr);
        push_octet(&mut mac_addr, b5);
        assert(mac_addr@ =~= mac_text(old(reader).remaining()));
        Ok(mac_addr)
    }
}

} // verus!
