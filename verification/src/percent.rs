//! Lenient URL decoding for form bodies.
//!
//! `+` decodes to a space and `%XY` with two hex digits decodes to the byte
//! `0xXY`. A `%` that is not followed by two hex digits is passed through as
//! a literal byte and decoding continues with the next byte: the decoder is
//! deliberately lenient, it never rejects.

use vstd::prelude::*;

verus! {

/// Whether `b` is an ASCII hexadecimal digit.
pub open spec fn is_hex_digit(b: u8) -> bool {
    ||| ('0' as u8) <= b <= ('9' as u8)
    ||| ('a' as u8) <= b <= ('f' as u8)
    ||| ('A' as u8) <= b <= ('F' as u8)
}

/// The numeric value of an ASCII hexadecimal digit.
pub open spec fn hex_value(b: u8) -> u8
    recommends
        is_hex_digit(b),
{
    if ('0' as u8) <= b <= ('9' as u8) {
        (b - ('0' as u8)) as u8
    } else if ('a' as u8) <= b <= ('f' as u8) {
        (b - ('a' as u8) + 10) as u8
    } else {
        (b - ('A' as u8) + 10) as u8
    }
}

/// The decoded form of `s`: `+` becomes a space, a valid `%XY` escape
/// becomes its byte, and everything else - a malformed escape included -
/// passes through unchanged.
pub open spec fn percent_decoded(s: Seq<u8>) -> Seq<u8>
    decreases s.len(),
{
    if s.len() == 0 {
        Seq::empty()
    } else if s[0] == ('+' as u8) {
        seq![(' ' as u8)] + percent_decoded(s.skip(1))
    } else if s[0] == ('%' as u8) && s.len() >= 3 && is_hex_digit(s[1]) && is_hex_digit(s[2]) {
        seq![(16 * hex_value(s[1]) + hex_value(s[2])) as u8] + percent_decoded(s.skip(3))
    } else {
        seq![s[0]] + percent_decoded(s.skip(1))
    }
}

fn hex_digit(b: u8) -> (r: Option<u8>)
    ensures
        r is Some <==> is_hex_digit(b),
        r matches Some(v) ==> v == hex_value(b),
{
    if ('0' as u8) <= b && b <= ('9' as u8) {
        Some(b - ('0' as u8))
    } else if ('a' as u8) <= b && b <= ('f' as u8) {
        Some(b - ('a' as u8) + 10)
    } else if ('A' as u8) <= b && b <= ('F' as u8) {
        Some(b - ('A' as u8) + 10)
    } else {
        None
    }
}

/// Decodes a URL-encoded byte string leniently.
pub fn percent_decode(input: &[u8]) -> (out: Vec<u8>)
    ensures
        out@ == percent_decoded(input@),
{
    let mut out: Vec<u8> = Vec::new();
    let mut i: usize = 0;
    proof {
        assert(input@.skip(0) =~= input@);
    }
    while i < input.len()
        invariant
            i <= input.len(),
            percent_decoded(input@) == out@ + percent_decoded(input@.skip(i as int)),
        decreases input.len() - i,
    {
        let b = input[i];
        proof {
            assert(input@.skip(i as int)[0] == input@[i as int]);
        }
        if b == ('+' as u8) {
            out.push(' ' as u8);
            proof {
                assert(input@.skip(i as int).skip(1) =~= input@.skip(i + 1));
            }
            i = i + 1;
        } else if b == ('%' as u8) && input.len() - i > 2 {
            let d1 = hex_digit(input[i + 1]);
            let d2 = hex_digit(input[i + 2]);
            proof {
                assert(input@.skip(i as int)[1] == input@[i + 1]);
                assert(input@.skip(i as int)[2] == input@[i + 2]);
                assert(input@.skip(i as int).len() >= 3);
            }
            match (d1, d2) {
                (Some(hi), Some(lo)) => {
                    out.push(16 * hi + lo);
                    proof {
                        assert(input@.skip(i as int).skip(3) =~= input@.skip(i + 3));
                    }
                    i = i + 3;
                },
                _ => {
                    out.push(b);
                    proof {
                        assert(input@.skip(i as int).skip(1) =~= input@.skip(i + 1));
                    }
                    i = i + 1;
                },
            }
        } else {
            out.push(b);
            proof {
                assert(input@.skip(i as int).skip(1) =~= input@.skip(i + 1));
            }
            i = i + 1;
        }
    }
    proof {
        assert(input@.skip(input@.len() as int) =~= Seq::<u8>::empty());
        assert(out@ =~= percent_decoded(input@));
    }
    out
}

} // verus!
