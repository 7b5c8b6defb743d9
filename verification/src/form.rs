//! Parsing of the URL-encoded provisioning form.
//!
//! A body such as `ssid=MyNet&password=Secret%201` is split on `&` into
//! `key=value` pairs; keys and values are URL-decoded. The field keys are
//! `ssid` and `password`: a missing or empty `ssid` is a parse failure, a
//! missing `password` defaults to the empty string.

use vstd::prelude::*;

use crate::creds::{WifiCredentials, PASSWORD_MAX, SSID_MAX};
use crate::bytes::{first_delim, lemma_first_delim, lemma_first_delim_is, scan_delim};
use crate::percent::{percent_decode, percent_decoded};

verus! {

/// The decoded key of one `key=value` segment.
pub open spec fn pair_key(seg: Seq<u8>) -> Seq<u8> {
    percent_decoded(seg.take(first_delim(seg, '=' as u8)))
}

/// The decoded value of one `key=value` segment; a segment without `=`
/// carries the empty value.
pub open spec fn pair_value(seg: Seq<u8>) -> Seq<u8> {
    let e = first_delim(seg, '=' as u8);
    if e == seg.len() {
        Seq::empty()
    } else {
        percent_decoded(seg.skip(e + 1))
    }
}

/// The decoded value of the first `&`-separated pair of `body` whose
/// decoded key is `key`, if any.
pub open spec fn form_lookup(body: Seq<u8>, key: Seq<u8>) -> Option<Seq<u8>>
    decreases body.len(),
    via form_lookup_decreases
{
    let a = first_delim(body, '&' as u8);
    let seg = body.take(a);
    if pair_key(seg) == key {
        Some(pair_value(seg))
    } else if a == body.len() {
        None
    } else {
        form_lookup(body.skip(a + 1), key)
    }
}

#[via_fn]
proof fn form_lookup_decreases(body: Seq<u8>, key: Seq<u8>) {
    lemma_first_delim(body, '&' as u8);
}

/// The byte string `ssid`.
pub open spec fn ssid_key() -> Seq<u8> {
    seq!['s' as u8, 's' as u8, 'i' as u8, 'd' as u8]
}

/// The byte string `password`.
pub open spec fn password_key() -> Seq<u8> {
    seq![
        'p' as u8,
        'a' as u8,
        's' as u8,
        's' as u8,
        'w' as u8,
        'o' as u8,
        'r' as u8,
        'd' as u8,
    ]
}

/// What a valid form body must decode to: the `ssid` field, non-empty and
/// within the SSID bound, and the `password` field, defaulted to empty and
/// within the password bound.
pub open spec fn form_credentials(body: Seq<u8>) -> Option<(Seq<u8>, Seq<u8>)> {
    match form_lookup(body, ssid_key()) {
        None => None,
        Some(ssid) => {
            let password = match form_lookup(body, password_key()) {
                None => Seq::empty(),
                Some(p) => p,
            };
            if 1 <= ssid.len() <= SSID_MAX && password.len() <= PASSWORD_MAX {
                Some((ssid, password))
            } else {
                None
            }
        },
    }
}

/// Looks up `key` among the `&`-separated, URL-decoded pairs of `body`.
pub fn lookup_field(body: &[u8], key: &[u8]) -> (r: Option<Vec<u8>>)
    ensures
        match r {
            Some(v) => form_lookup(body@, key@) == Some(v@),
            None => form_lookup(body@, key@) is None,
        },
{
    let mut pos: usize = 0;
    proof {
        assert(body@.skip(0) =~= body@);
    }
    loop
        invariant
            pos <= body@.len(),
            form_lookup(body@, key@) == form_lookup(body@.skip(pos as int), key@),
        decreases body@.len() - pos,
    {
        let ghost rest: Seq<u8> = body@.skip(pos as int);
        let amp = scan_delim(body, pos, '&' as u8);
        let ghost a: int = amp - pos;
        let ghost seg: Seq<u8> = rest.take(a);
        proof {
            assert(seg =~= body@.subrange(pos as int, amp as int));
        }
        let eq = scan_delim(body, pos, '=' as u8);
        let (key_end, has_value) = if eq < amp { (eq, true) } else { (amp, false) };
        proof {
            // The first `=` of the segment is at `key_end - pos`.
            let e: int = key_end - pos;
            assert forall|j: int| 0 <= j < e implies seg[j] != ('=' as u8) by {
                assert(seg[j] == body@[j + pos]);
                lemma_first_delim(body@.skip(pos as int), '=' as u8);
            }
            if e < seg.len() {
                assert(seg[e] == body@[key_end as int]);
                lemma_first_delim(body@.skip(pos as int), '=' as u8);
            }
            lemma_first_delim_is(seg, '=' as u8, e);
        }
        let raw_key = crate::bytes::copy_range(body, pos, key_end);
        let decoded_key = percent_decode(raw_key.as_slice());
        proof {
            assert(seg.take(key_end - pos) =~= body@.subrange(pos as int, key_end as int));
        }
        if crate::bytes::bytes_eq(decoded_key.as_slice(), key) {
            if has_value {
                let raw_value = crate::bytes::copy_range(body, eq + 1, amp);
                let value = percent_decode(raw_value.as_slice());
                proof {
                    assert(seg.skip(eq - pos + 1) =~= body@.subrange(eq + 1, amp as int));
                }
                return Some(value);
            } else {
                proof {
                    assert(pair_value(seg) =~= Seq::<u8>::empty());
                }
                return Some(Vec::new());
            }
        }
        if amp == body.len() {
            return None;
        }
        pos = amp + 1;
        proof {
            assert(rest.skip(a + 1) =~= body@.skip(pos as int));
        }
    }
}

/// Parses the provisioning form body into credentials, exactly when the
/// body decodes to a non-empty SSID within bounds.
pub fn parse_form(body: &[u8]) -> (r: Option<WifiCredentials>)
    ensures
        match r {
            Some(c) => {
                &&& form_credentials(body@) matches Some(f)
                &&& c.ssid@ == f.0
                &&& c.password@ == f.1
                &&& c.well_formed()
            },
            None => form_credentials(body@) is None,
        },
{
    let skey: &str = "ssid";
    let pkey: &str = "password";
    proof {
        reveal_strlit("ssid");
        reveal_strlit("password");
        assert(skey@.len() == 4);
        assert(pkey@.len() == 8);
        assert(skey.is_ascii());
        assert(pkey.is_ascii());
    }
    let skey_bytes = skey.as_bytes();
    let pkey_bytes = pkey.as_bytes();
    proof {
        assert(skey_bytes@ =~= ssid_key());
        assert(pkey_bytes@ =~= password_key());
    }
    let ssid = match lookup_field(body, skey_bytes) {
        None => {
            return None;
        },
        Some(v) => v,
    };
    let password = match lookup_field(body, pkey_bytes) {
        None => Vec::new(),
        Some(v) => v,
    };
    if 1 <= ssid.len() && ssid.len() <= SSID_MAX && password.len() <= PASSWORD_MAX {
        Some(WifiCredentials { ssid, password })
    } else {
        None
    }
}

} // verus!
