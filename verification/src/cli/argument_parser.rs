use vstd::prelude::*;
use vstd::string::{StrSliceExecFns, StringExecFns};

verus! {

/// The layer that a filter looks at, and for the transport layer the protocol.
#[derive(Debug, Clone, Copy, PartialEq, Eq, Structural)]
pub enum FilterType {
    MAC,
    IPv4,
    IPv6,
    TCP,
    UDP,
}

impl FilterType {
    /// The name of the filter kind.
    pub open spec fn name(self) -> Seq<char> {
        match self {
            FilterType::MAC => "MAC"@,
            FilterType::IPv4 => "IPv4"@,
            FilterType::IPv6 => "IPv6"@,
            FilterType::TCP => "TCP"@,
            FilterType::UDP => "UDP"@,
        }
    }

    /// The name of the filter kind, as text.
    pub fn to_string(&self) -> (s: String)
        ensures
            s@ == self.name(),
    {
        match self {
            FilterType::MAC => String::from_str("MAC"),
            FilterType::IPv4 => String::from_str("IPv4"),
            FilterType::IPv6 => String::from_str("IPv6"),
            FilterType::TCP => String::from_str("TCP"),
            FilterType::UDP => String::from_str("UDP"),
        }
    }
}

/// Which of a packet's two ends the filter is held against. A packet matches
/// when the value is found at any end that is selected.
#[derive(Debug, Clone, Copy, PartialEq, Eq, Structural)]
pub struct SrcDstGroup {
    pub source: bool,
    pub dst: bool,
}

/// An IP address as an integer: the address's bytes read in network order.
#[derive(Debug, Clone, Copy, PartialEq, Eq, Structural)]
pub enum IpLiteral {
    V4(u32),
    V6(u128),
}

/// One filter: its kind and the value to look for, as the user wrote it.
///
/// `address` is the address that `value` spells when it is read as an IP
/// literal, and `None` when it spells none. Whoever builds the filter reads
/// the text and fills this in; the library takes it as given.
#[derive(Debug)]
pub struct Filter {
    pub filter_type: FilterType,
    pub value: String,
    pub address: Option<IpLiteral>,
}

/// The pattern of a MAC address in text: six octets of two hexadecimal digits
/// each, all joined by colons or hyphens.
pub const MAC_PATTERN: &'static str = "^([0-9A-Fa-f]{2}[:-]){5}([0-9A-Fa-f]{2})$";

/// Whether the regular expression `pattern` finds a match in `text`; `None`
/// where `pattern` is no regular expression that the `regex` crate compiles.
pub uninterp spec fn regex_verdict(pattern: Seq<char>, text: Seq<char>) -> Option<bool>;

/// Calls `regex::Regex::new` on `pattern` and `regex::Regex::is_match` on
/// what it built. Trusted: the outcome depends on the two texts alone.
#[verifier::external_body]
fn regex_is_match(pattern: &str, text: &str) -> (r: Option<bool>)
    ensures
        r == regex_verdict(pattern@, text@),
{
    match regex::Regex::new(pattern) {
        Ok(re) => Some(re.is_match(text)),
        Err(_) => None,
    }
}

/// The decimal digit that `c` is, if it is one.
pub open spec fn digit_of(c: char) -> Option<nat> {
    if '0' <= c && c <= '9' {
        Some((c as nat - '0' as nat) as nat)
    } else {
        None
    }
}

/// Every character of `s` is a decimal digit.
pub open spec fn all_digits(s: Seq<char>) -> bool {
    forall|i: int| 0 <= i < s.len() ==> (#[trigger] digit_of(s[i])) is Some
}

/// The number that the decimal digits `s` spell.
pub open spec fn decimal_value(s: Seq<char>) -> nat
    decreases s.len(),
{
    if s.len() == 0 {
        0
    } else {
        decimal_value(s.drop_last()) * 10 + digit_of(s.last()).unwrap_or(0)
    }
}

/// The number that `s` spells as an unsigned decimal integer: one or more
/// digits, which a single `+` may precede. `None` for any other text.
pub open spec fn unsigned_value(s: Seq<char>) -> Option<nat> {
    let digits = if s.len() > 0 && s[0] == '+' {
        s.skip(1)
    } else {
        s
    };
    if digits.len() > 0 && all_digits(digits) {
        Some(decimal_value(digits))
    } else {
        None
    }
}

/// The number that `s` spells, where it spells one that is at most `limit`.
pub open spec fn bounded_value(s: Seq<char>, limit: u64) -> Option<u64> {
    match unsigned_value(s) {
        Some(v) => if v <= limit {
            Some(v as u64)
        } else {
            None
        },
        None => None,
    }
}

/// The port that `s` spells, where it spells a number that a port can hold.
pub open spec fn port_of(s: Seq<char>) -> Option<u16> {
    match bounded_value(s, 0xFFFF) {
        Some(v) => Some(v as u16),
        None => None,
    }
}

/// A longer run of digits spells no smaller number.
proof fn lemma_decimal_value_grows(s: Seq<char>, from: int, mid: int, to: int)
    requires
        0 <= from <= mid <= to <= s.len(),
    ensures
        decimal_value(s.subrange(from, mid)) <= decimal_value(s.subrange(from, to)),
    decreases to - mid,
{
    if mid < to {
        lemma_decimal_value_grows(s, from, mid, to - 1);
        assert(s.subrange(from, to).drop_last() == s.subrange(from, to - 1));
    }
}

/// Reads `text` as an unsigned decimal integer that is at most `limit`.
pub fn parse_unsigned(text: &str, limit: u64) -> (r: Option<u64>)
    ensures
        r == bounded_value(text@, limit),
{
    let n = text.unicode_len();
    if n == 0 {
        return None;
    }
    let start: usize = if text.get_char(0) == '+' {
        1
    } else {
        0
    };
    if start == n {
        return None;
    }
    let ghost digits = text@.skip(start as int);
    assert(text@.skip(0) =~= text@);
    assert(digits == if text@.len() > 0 && text@[0] == '+' {
        text@.skip(1)
    } else {
        text@
    });
    assert(text@.subrange(start as int, start as int) =~= Seq::<char>::empty());
    let mut acc: u64 = 0;
    let mut i: usize = start;
    while i < n
        invariant
            start <= i <= n,
            n == text@.len(),
            start < n,
            digits == text@.skip(start as int),
            digits == if text@.len() > 0 && text@[0] == '+' {
                text@.skip(1)
            } else {
                text@
            },
            all_digits(text@.subrange(start as int, i as int)),
            acc == decimal_value(text@.subrange(start as int, i as int)),
            acc <= limit,
        decreases n - i,
    {
        let c = text.get_char(i);
        let code = c as u32;
        if code < 48 || code > 57 {
            assert(digit_of(digits[i - start]) is None);
            return None;
        }
        let d: u64 = (code - 48) as u64;
        let ghost before = text@.subrange(start as int, i as int);
        let ghost now = text@.subrange(start as int, i + 1);
        assert(now.drop_last() == before);
        assert(now.last() == c);
        assert(digit_of(c) == Some(d as nat));
        assert(all_digits(now)) by {
            assert forall|j: int| 0 <= j < now.len() implies (#[trigger] digit_of(now[j])) is Some by {
                if j < before.len() {
                    assert(now[j] == before[j]);
                }
            }
        }
        let next: u128 = (acc as u128) * 10 + (d as u128);
        if next > limit as u128 {
            proof {
                lemma_decimal_value_grows(text@, start as int, i + 1, n as int);
                assert(text@.subrange(start as int, n as int) == digits);
                if all_digits(digits) {
                    assert(decimal_value(digits) > limit);
                }
            }
            return None;
        }
        acc = next as u64;
        i = i + 1;
    }
    assert(text@.subrange(start as int, n as int) == digits);
    Some(acc)
}

impl Filter {
    /// What is wrong with a MAC filter's value, given what the pattern
    /// search found; `None` when nothing is.
    pub open spec fn mac_complaint(found: Option<bool>) -> Option<Seq<char>> {
        if found == Some(true) {
            None
        } else {
            Some("Invalid MAC address"@)
        }
    }

    /// What is wrong with an address filter; `None` when nothing is.
    pub open spec fn ip_complaint(self) -> Option<Seq<char>> {
        if self.address is Some {
            None
        } else {
            Some("Invalid IP address"@)
        }
    }

    /// What is wrong with a port filter's value; `None` when nothing is.
    pub open spec fn port_complaint(self) -> Option<Seq<char>> {
        match bounded_value(self.value@, usize::MAX as u64) {
            None => Some("`"@ + self.value@ + "` is not a port number!"@),
            Some(port) => if 1 <= port <= 65535 {
                None
            } else {
                Some("port not in range 1-65535"@)
            },
        }
    }

    /// What is wrong with the filter; `None` when nothing is.
    pub open spec fn complaint(self) -> Option<Seq<char>> {
        match self.filter_type {
            FilterType::MAC => Self::mac_complaint(regex_verdict(MAC_PATTERN@, self.value@)),
            FilterType::IPv4 | FilterType::IPv6 => self.ip_complaint(),
            FilterType::TCP | FilterType::UDP => self.port_complaint(),
        }
    }

    /// The check's answer in full: `r` accepts where there is no complaint,
    /// and carries the complaint where there is one.
    pub open spec fn answers(r: Result<(), String>, complaint: Option<Seq<char>>) -> bool {
        match r {
            Ok(_) => complaint is None,
            Err(e) => complaint == Some(e@),
        }
    }

    /// Checks the value against the filter's kind.
    pub fn validate(&self) -> (r: Result<(), String>)
        ensures
            Self::answers(r, self.complaint()),
    {
        match self.filter_type {
            FilterType::MAC => self.check_mac(),
            FilterType::IPv4 | FilterType::IPv6 => self.check_ip(),
            FilterType::TCP | FilterType::UDP => self.check_port(),
        }
    }

    /// Checks that the value is a MAC address in text.
    pub fn check_mac(&self) -> (r: Result<(), String>)
        ensures
            Self::answers(r, Self::mac_complaint(regex_verdict(MAC_PATTERN@, self.value@))),
    {
        let found = regex_is_match(MAC_PATTERN, self.value.as_str());
        Self::mac_answer(found)
    }

    /// Turns the outcome of the pattern search into the check's answer: the
    /// value passes only where the pattern was searched and found.
    pub fn mac_answer(found: Option<bool>) -> (r: Result<(), String>)
        ensures
            Self::answers(r, Self::mac_complaint(found)),
    {
        match found {
            Some(true) => Ok(()),
            _ => Err(String::from_str("Invalid MAC address")),
        }
    }

    /// Checks that the value was read as an IP address, of either family.
    pub fn check_ip(&self) -> (r: Result<(), String>)
        ensures
            Self::answers(r, self.ip_complaint()),
    {
        match self.address {
            Some(IpLiteral::V4(_)) | Some(IpLiteral::V6(_)) => Ok(()),
            None => Err(String::from_str("Invalid IP address")),
        }
    }

    /// Checks that the value is a port number: a decimal integer from 1 to 65535.
    pub fn check_port(&self) -> (r: Result<(), String>)
        ensures
            Self::answers(r, self.port_complaint()),
    {
        let port: u64 = match parse_unsigned(self.value.as_str(), usize::MAX as u64) {
            Some(port) => port,
            None => {
                let mut message = String::from_str("`");
                message.append(self.value.as_str());
                message.append("` is not a port number!");
                return Err(message);
            },
        };

        if 1 <= port && port <= 65535 {
            Ok(())
        } else {
            Err(String::from_str("port not in range 1-65535"))
        }
    }
}

/// All that a run is told: the capture's path, the filter and the direction.
#[derive(Debug)]
pub struct CliArguments {
    pub file: String,
    pub filter: Filter,
    pub direction: SrcDstGroup,
}

impl CliArguments {
    /// What is wrong with the arguments; `None` when nothing is. `is_file`
    /// says whether `file` names a file that is there.
    pub open spec fn complaint(self, is_file: bool) -> Option<Seq<char>> {
        match self.filter.complaint() {
            Some(message) => Some(message),
            None => if is_file {
                None
            } else {
                Some("Given file path is not file"@)
            },
        }
    }
}

/// Checks the arguments of a run: first the filter, then that the path names
/// a file. Hands the arguments back where both hold, and the complaint where
/// one does not.
pub fn parse_args(args: CliArguments, is_file: bool) -> (r: Result<CliArguments, String>)
    ensures
        match r {
            Ok(accepted) => accepted == args && args.complaint(is_file) is None,
            Err(e) => args.complaint(is_file) == Some(e@),
        },
{
    match args.filter.validate() {
        Ok(()) => {
            if !is_file {
                return Err(String::from_str("Given file path is not file"));
            }
            Ok(args)
        },
        Err(e) => Err(e),
    }
}

} // verus!
