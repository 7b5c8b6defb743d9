//! Parsing of configured network addresses.
//!
//! The broker and update hosts arrive as configuration strings. A host
//! that reads as a dotted-quad IPv4 literal is used directly, bypassing
//! DNS; anything else is handed to the resolver. A configured port is a
//! plain decimal number, with a fallback when absent or malformed.

use vstd::prelude::*;

use crate::bytes::{first_delim, lemma_first_delim, lemma_first_delim_is, scan_delim};

verus! {

/// Whether `b` is an ASCII decimal digit.
pub open spec fn is_digit(b: u8) -> bool {
    ('0' as u8) <= b <= ('9' as u8)
}

/// Whether `s` is all decimal digits.
pub open spec fn all_digits(s: Seq<u8>) -> bool {
    forall|i: int| 0 <= i < s.len() ==> is_digit(#[trigger] s[i])
}

/// The value of a digit string read left to right.
pub open spec fn dec_value(s: Seq<u8>) -> nat
    decreases s.len(),
{
    if s.len() == 0 {
        0
    } else {
        (dec_value(s.drop_last()) * 10 + (s.last() - ('0' as u8))) as nat
    }
}

/// Appending digits never shrinks the value.
pub proof fn lemma_dec_value_prefix(s: Seq<u8>, i: int)
    requires
        0 <= i <= s.len(),
        all_digits(s),
    ensures
        dec_value(s.take(i)) <= dec_value(s),
    decreases s.len() - i,
{
    if i < s.len() {
        lemma_dec_value_prefix(s, i + 1);
        assert(s.take(i + 1).drop_last() =~= s.take(i));
        assert(s.take(i + 1).last() == s[i]);
        assert(is_digit(s[i]));
        assert(dec_value(s.take(i + 1)) == dec_value(s.take(i)) * 10 + (s[i] - ('0' as u8)));
    } else {
        assert(s.take(i) =~= s);
    }
}

/// A valid dotted-quad octet: one to three digits, no leading zero,
/// value at most 255.
pub open spec fn valid_octet(s: Seq<u8>) -> bool {
    &&& 1 <= s.len() <= 3
    &&& all_digits(s)
    &&& dec_value(s) <= 255
    &&& (s.len() > 1 ==> s[0] != ('0' as u8))
}

/// The four `.`-separated segments of `s`, if it has exactly four.
pub open spec fn quad_segments(s: Seq<u8>) -> Option<(Seq<u8>, Seq<u8>, Seq<u8>, Seq<u8>)> {
    let p1 = first_delim(s, '.' as u8);
    if p1 == s.len() {
        None
    } else {
        let r1 = s.skip(p1 + 1);
        let p2 = first_delim(r1, '.' as u8);
        if p2 == r1.len() {
            None
        } else {
            let r2 = r1.skip(p2 + 1);
            let p3 = first_delim(r2, '.' as u8);
            if p3 == r2.len() {
                None
            } else {
                let r3 = r2.skip(p3 + 1);
                if first_delim(r3, '.' as u8) == r3.len() {
                    Some((s.take(p1), r1.take(p2), r2.take(p3), r3))
                } else {
                    None
                }
            }
        }
    }
}

/// The IPv4 address a host string denotes, if it is a literal: four valid
/// octets separated by dots.
pub open spec fn spec_ipv4(s: Seq<u8>) -> Option<(u8, u8, u8, u8)> {
    match quad_segments(s) {
        None => None,
        Some(q) => {
            if valid_octet(q.0) && valid_octet(q.1) && valid_octet(q.2) && valid_octet(q.3) {
                Some(
                    (
                        dec_value(q.0) as u8,
                        dec_value(q.1) as u8,
                        dec_value(q.2) as u8,
                        dec_value(q.3) as u8,
                    ),
                )
            } else {
                None
            }
        },
    }
}

/// Reads one octet from the byte range `[from, to)` of `s`.
fn parse_octet(s: &[u8], from: usize, to: usize) -> (r: Option<u8>)
    requires
        from <= to <= s@.len(),
    ensures
        ({
            let seg = s@.subrange(from as int, to as int);
            match r {
                Some(v) => valid_octet(seg) && v == dec_value(seg),
                None => !valid_octet(seg),
            }
        }),
{
    let ghost seg: Seq<u8> = s@.subrange(from as int, to as int);
    let len = to - from;
    if len < 1 || len > 3 {
        return None;
    }
    proof {
        assert(seg.len() == to - from);
        if to - from >= 1 {
            assert(seg[0] == s@[from as int]);
        }
    }
    if len > 1 && s[from] == ('0' as u8) {
        return None;
    }
    let mut value: u32 = 0;
    let mut i: usize = from;
    while i < to
        invariant
            from <= i <= to <= s@.len(),
            seg == s@.subrange(from as int, to as int),
            to - from <= 3,
            all_digits(seg.take(i - from)),
            value == dec_value(seg.take(i - from)),
            i - from == 0 ==> value == 0,
            i - from == 1 ==> value <= 9,
            i - from == 2 ==> value <= 99,
            i - from == 3 ==> value <= 999,
        decreases to - i,
    {
        let b = s[i];
        if b < ('0' as u8) || b > ('9' as u8) {
            proof {
                assert(seg[i - from] == b);
                assert(!is_digit(seg[i - from]));
            }
            return None;
        }
        proof {
            assert(seg.take(i - from + 1).drop_last() =~= seg.take(i - from));
            assert(seg.take(i - from + 1).last() == seg[i - from]);
            assert(seg[i - from] == s@[i as int]);
        }
        value = value * 10 + (b - ('0' as u8)) as u32;
        i = i + 1;
        proof {
            assert(all_digits(seg.take(i - from))) by {
                assert(forall|k: int|
                    0 <= k < i - from ==> #[trigger] seg.take(i - from)[k] == seg.take(
                        i - from,
                    )[k] && is_digit(seg.take(i - from)[k]));
            }
        }
    }
    proof {
        assert(seg.take(to - from) =~= seg);
    }
    if value <= 255 {
        Some(value as u8)
    } else {
        None
    }
}

/// Parses a dotted-quad IPv4 literal such as `192.168.2.1`.
pub fn parse_ipv4(s: &[u8]) -> (r: Option<(u8, u8, u8, u8)>)
    ensures
        r == spec_ipv4(s@),
{
    let n = s.len();
    let d1 = scan_delim(s, 0, '.' as u8);
    proof {
        assert(s@.skip(0) =~= s@);
    }
    if d1 == n {
        return None;
    }
    let d2 = scan_delim(s, d1 + 1, '.' as u8);
    let ghost r1: Seq<u8> = s@.skip(d1 + 1);
    proof {
        assert(r1.len() == n - d1 - 1);
    }
    if d2 == n {
        return None;
    }
    let d3 = scan_delim(s, d2 + 1, '.' as u8);
    let ghost r2: Seq<u8> = r1.skip(d2 - d1);
    proof {
        assert(r2 =~= s@.skip(d2 + 1));
        assert(first_delim(r2, '.' as u8) == d3 - d2 - 1) by {
            assert(r2 == s@.skip(d2 + 1));
        }
    }
    if d3 == n {
        return None;
    }
    let d4 = scan_delim(s, d3 + 1, '.' as u8);
    let ghost r3: Seq<u8> = r2.skip(d3 - d2);
    proof {
        assert(r3 =~= s@.skip(d3 + 1));
        assert(first_delim(r3, '.' as u8) == d4 - d3 - 1) by {
            assert(r3 == s@.skip(d3 + 1));
        }
    }
    if d4 != n {
        return None;
    }
    proof {
        assert(first_delim(r3, '.' as u8) == r3.len());
        assert(quad_segments(s@) matches Some(q) && q.0 == s@.take(d1 as int) && q.1 == r1.take(
            d2 - d1 - 1,
        ) && q.2 == r2.take(d3 - d2 - 1) && q.3 == r3);
        assert(s@.take(d1 as int) =~= s@.subrange(0, d1 as int));
        assert(r1.take(d2 - d1 - 1) =~= s@.subrange(d1 + 1, d2 as int));
        assert(r2.take(d3 - d2 - 1) =~= s@.subrange(d2 + 1, d3 as int));
        assert(r3 =~= s@.subrange(d3 + 1, n as int));
    }
    let o1 = parse_octet(s, 0, d1);
    let o2 = parse_octet(s, d1 + 1, d2);
    let o3 = parse_octet(s, d2 + 1, d3);
    let o4 = parse_octet(s, d3 + 1, n);
    match (o1, o2, o3, o4) {
        (Some(a), Some(b), Some(c), Some(d)) => Some((a, b, c, d)),
        _ => None,
    }
}

/// The port the publisher uses when the configuration names none.
pub const DEFAULT_BROKER_PORT: u16 = 1884;

/// The decimal port number `s` denotes, when it is all digits, non-empty,
/// and at most 65535.
pub open spec fn spec_port(s: Seq<u8>) -> Option<u16> {
    if s.len() >= 1 && all_digits(s) && dec_value(s) <= 65535 {
        Some(dec_value(s) as u16)
    } else {
        None
    }
}

/// Parses a decimal port number.
pub fn parse_port(s: &[u8]) -> (r: Option<u16>)
    ensures
        r == spec_port(s@),
{
    if s.len() < 1 {
        return None;
    }
    let mut value: u32 = 0;
    let mut i: usize = 0;
    while i < s.len()
        invariant
            i <= s@.len(),
            all_digits(s@.take(i as int)),
            value == dec_value(s@.take(i as int)),
            value <= 65535,
        decreases s@.len() - i,
    {
        let b = s[i];
        if b < ('0' as u8) || b > ('9' as u8) {
            proof {
                assert(!is_digit(s@[i as int]));
            }
            return None;
        }
        proof {
            assert(s@.take(i + 1).drop_last() =~= s@.take(i as int));
            assert(s@.take(i + 1).last() == s@[i as int]);
        }
        value = value * 10 + (b - ('0' as u8)) as u32;
        i = i + 1;
        proof {
            assert(all_digits(s@.take(i as int))) by {
                assert(forall|k: int|
                    0 <= k < i ==> #[trigger] s@.take(i as int)[k] == s@[k] && is_digit(s@[k]));
            }
        }
        if value > 65535 {
            proof {
                if all_digits(s@) {
                    lemma_dec_value_prefix(s@, i as int);
                }
            }
            return None;
        }
    }
    proof {
        assert(s@.take(s@.len() as int) =~= s@);
    }
    Some(value as u16)
}

/// The port to publish to: the configured one when present and readable,
/// else the default.
pub fn broker_port(configured: Option<&[u8]>) -> (p: u16)
    ensures
        match configured {
            Some(s) => p == match spec_port(s@) {
                Some(v) => v,
                None => DEFAULT_BROKER_PORT,
            },
            None => p == DEFAULT_BROKER_PORT,
        },
{
    match configured {
        Some(s) => match parse_port(s) {
            Some(v) => v,
            None => DEFAULT_BROKER_PORT,
        },
        None => DEFAULT_BROKER_PORT,
    }
}

} // verus!
