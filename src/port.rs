use vstd::prelude::*;
use crate::error::CliError;

verus! {

/// A reverse port mapping from a port on the device to a port on the host.
#[derive(Clone, Copy, Debug, PartialEq, Eq, Structural)]
pub struct PortMapping {
    pub host_port: u16,
    pub device_port: u16,
}

pub open spec fn is_digit(c: char) -> bool {
    '0' <= c && c <= '9'
}

pub open spec fn all_digits(s: Seq<char>) -> bool {
    forall|i: int| 0 <= i < s.len() ==> is_digit(#[trigger] s[i])
}

/// The value of a string of decimal digits, most significant first.
pub open spec fn digits_value(s: Seq<char>) -> int
    decreases s.len(),
{
    if s.len() == 0 {
        0
    } else {
        digits_value(s.drop_last()) * 10 + (s.last() as int - '0' as int)
    }
}

/// The text of an unsigned 16-bit integer: one or more ASCII decimal digits,
/// nothing else, with a value below 65536.
pub open spec fn parse_u16(s: Seq<char>) -> Option<u16> {
    if s.len() > 0 && all_digits(s) && digits_value(s) <= u16::MAX {
        Some(digits_value(s) as u16)
    } else {
        None
    }
}

/// `s` has a colon at `i` and nowhere else.
pub open spec fn only_colon_at(s: Seq<char>, i: int) -> bool {
    &&& 0 <= i < s.len()
    &&& s[i] == ':'
    &&& forall|j: int| 0 <= j < s.len() && j != i ==> #[trigger] s[j] != ':'
}

/// The (device port, host port) that a mapping text denotes: exactly two parts
/// around a single colon, each an unsigned 16-bit integer.
pub open spec fn parse_mapping(s: Seq<char>) -> Option<(u16, u16)> {
    if exists|i: int| only_colon_at(s, i) {
        let i = choose|i: int| only_colon_at(s, i);
        match (parse_u16(s.take(i)), parse_u16(s.skip(i + 1))) {
            (Some(d), Some(h)) => Some((d, h)),
            _ => None,
        }
    } else {
        None
    }
}

proof fn lemma_digits_value_nonneg(s: Seq<char>)
    requires
        all_digits(s),
    ensures
        digits_value(s) >= 0,
    decreases s.len(),
{
    if s.len() > 0 {
        lemma_digits_value_nonneg(s.drop_last());
    }
}

/// A prefix of a digit string has no greater value than the whole.
proof fn lemma_digits_value_prefix(s: Seq<char>, k: int)
    requires
        all_digits(s),
        0 <= k <= s.len(),
    ensures
        digits_value(s.take(k)) <= digits_value(s),
    decreases s.len(),
{
    if k < s.len() {
        let t = s.drop_last();
        lemma_digits_value_prefix(t, k);
        lemma_digits_value_nonneg(t);
        assert(t.take(k) =~= s.take(k));
    } else {
        assert(s.take(k) =~= s);
    }
}

/// Two decimal numbers below 65536 joined by a colon parse to exactly those
/// device and host ports.
pub proof fn lemma_parse_decimal_pair(d: Seq<char>, h: Seq<char>)
    requires
        d.len() > 0,
        h.len() > 0,
        all_digits(d),
        all_digits(h),
        digits_value(d) <= u16::MAX,
        digits_value(h) <= u16::MAX,
    ensures
        parse_mapping(d + seq![':'] + h) == Some((digits_value(d) as u16, digits_value(h) as u16)),
{
    let s = d + seq![':'] + h;
    let k = d.len() as int;
    assert(s[k] == ':');
    assert forall|j: int| 0 <= j < s.len() && j != k implies #[trigger] s[j] != ':' by {
        if j < k {
            assert(s[j] == d[j]);
        } else {
            assert(s[j] == h[j - k - 1]);
        }
    }
    assert(only_colon_at(s, k));
    let i = choose|i: int| only_colon_at(s, i);
    assert(i == k);
    assert(s.take(k) =~= d);
    assert(s.skip(k + 1) =~= h);
}

/// Reads `s[lo..hi]` as an unsigned 16-bit integer.
fn parse_port(s: &str, lo: usize, hi: usize) -> (r: Option<u16>)
    requires
        lo <= hi <= s@.len(),
    ensures
        r == parse_u16(s@.subrange(lo as int, hi as int)),
{
    let ghost d = s@.subrange(lo as int, hi as int);
    if lo == hi {
        return None;
    }
    let mut value: u32 = 0;
    let mut i = lo;
    while i < hi
        invariant
            lo <= i <= hi <= s@.len(),
            d == s@.subrange(lo as int, hi as int),
            all_digits(d.take(i - lo)),
            value as int == digits_value(d.take(i - lo)),
            value <= u16::MAX,
        decreases hi - i,
    {
        let c = s.get_char(i);
        if c < '0' || c > '9' {
            assert(d[i - lo] == c);
            assert(!is_digit(d[i - lo]));
            assert(!all_digits(d));
            return None;
        }
        let ghost prev = d.take(i - lo);
        let ghost next = d.take(i + 1 - lo);
        assert(next.drop_last() =~= prev);
        assert(next.last() == c);
        let digit = (c as u32) - ('0' as u32);
        value = value * 10 + digit;
        i = i + 1;
        assert(all_digits(next)) by {
            assert forall|j: int| 0 <= j < next.len() implies is_digit(#[trigger] next[j]) by {
                if j < prev.len() {
                    assert(next[j] == prev[j]);
                }
            }
        }
        assert(digits_value(next) == digits_value(prev) * 10 + (c as int - '0' as int));
        assert(value as int == digits_value(next));
        if value > 65535 {
            proof {
                assert(next =~= d.take(i - lo));
                if all_digits(d) {
                    lemma_digits_value_prefix(d, i - lo);
                }
            }
            return None;
        }
    }
    assert(d.take(i - lo) =~= d);
    Some(value as u16)
}

impl PortMapping {
    /// Parses `<device_port>:<host_port>`.
    pub fn new(mapping: &str) -> (r: Result<PortMapping, CliError>)
        ensures
            match (r, parse_mapping(mapping@)) {
                (Ok(m), Some((d, h))) => m.device_port == d && m.host_port == h,
                (Err(CliError::InvalidPortMapping(text)), None) => text@ == mapping@,
                _ => false,
            },
    {
        let n = mapping.unicode_len();
        let mut colon: usize = n;
        let mut i: usize = 0;
        while i < n
            invariant
                n == mapping@.len(),
                i <= n,
                colon <= n,
                colon == n ==> forall|j: int| 0 <= j < i ==> #[trigger] mapping@[j] != ':',
                colon < n ==> colon < i && mapping@[colon as int] == ':' && forall|j: int|
                    0 <= j < i && j != colon ==> #[trigger] mapping@[j] != ':',
            decreases n - i,
        {
            if mapping.get_char(i) == ':' {
                if colon < n {
                    assert forall|k: int| !only_colon_at(mapping@, k) by {
                        if only_colon_at(mapping@, k) {
                            assert(mapping@[colon as int] == ':');
                            assert(mapping@[i as int] == ':');
                        }
                    }
                    return Err(CliError::InvalidPortMapping(String::from_str(mapping)));
                }
                colon = i;
            }
            i = i + 1;
        }
        if colon == n {
            return Err(CliError::InvalidPortMapping(String::from_str(mapping)));
        }
        assert(only_colon_at(mapping@, colon as int));
        let ghost k = choose|k: int| only_colon_at(mapping@, k);
        assert(k == colon);
        assert(mapping@.take(colon as int) =~= mapping@.subrange(0, colon as int));
        assert(mapping@.skip(colon + 1) =~= mapping@.subrange(colon + 1, n as int));
        let device_port = match parse_port(mapping, 0, colon) {
            Some(p) => p,
            None => {
                return Err(CliError::InvalidPortMapping(String::from_str(mapping)));
            },
        };
        let host_port = match parse_port(mapping, colon + 1, n) {
            Some(p) => p,
            None => {
                return Err(CliError::InvalidPortMapping(String::from_str(mapping)));
            },
        };
        Ok(PortMapping { host_port, device_port })
    }
}

} // verus!
