//! Parsing of the JSON provisioning body.
//!
//! The portal also accepts credentials as a flat JSON object of string
//! fields, `{"ssid": "MyNet", "password": "secret"}`. Values take the
//! usual single-character escapes (`\uXXXX` is not accepted); unknown
//! string-valued fields are ignored. The field rules match the form
//! parser: a missing or empty `ssid` fails, a missing `password`
//! defaults to empty.

use vstd::prelude::*;

use crate::creds::{WifiCredentials, PASSWORD_MAX, SSID_MAX};
use crate::form::{password_key, ssid_key};

verus! {

/// JSON insignificant whitespace.
pub open spec fn is_ws(b: u8) -> bool {
    b == (' ' as u8) || b == ('\t' as u8) || b == ('\n' as u8) || b == ('\r' as u8)
}

/// The first index at or after `i` holding a non-whitespace byte, or the
/// end of `s`.
pub open spec fn skip_ws(s: Seq<u8>, i: int) -> int
    decreases s.len() - i,
    when 0 <= i <= s.len()
{
    if i == s.len() {
        i
    } else if is_ws(s[i]) {
        skip_ws(s, i + 1)
    } else {
        i
    }
}

/// `skip_ws` stays within `[i, s.len()]`.
pub proof fn lemma_skip_ws(s: Seq<u8>, i: int)
    requires
        0 <= i <= s.len(),
    ensures
        i <= skip_ws(s, i) <= s.len(),
        skip_ws(s, i) < s.len() ==> !is_ws(s[skip_ws(s, i)]),
    decreases s.len() - i,
{
    if i < s.len() && is_ws(s[i]) {
        lemma_skip_ws(s, i + 1);
    }
}

/// The byte a single-character escape denotes, if valid.
pub open spec fn unescaped(b: u8) -> Option<u8> {
    if b == ('"' as u8) {
        Some('"' as u8)
    } else if b == ('\\' as u8) {
        Some('\\' as u8)
    } else if b == ('/' as u8) {
        Some('/' as u8)
    } else if b == ('b' as u8) {
        Some(8u8)
    } else if b == ('f' as u8) {
        Some(12u8)
    } else if b == ('n' as u8) {
        Some('\n' as u8)
    } else if b == ('r' as u8) {
        Some('\r' as u8)
    } else if b == ('t' as u8) {
        Some('\t' as u8)
    } else {
        None
    }
}

/// Parses a string body starting right after its opening quote: the
/// decoded content and the index after the closing quote.
pub open spec fn string_body(s: Seq<u8>, i: int) -> Option<(Seq<u8>, int)>
    decreases s.len() - i,
    when 0 <= i <= s.len()
{
    if i == s.len() {
        None
    } else if s[i] == ('"' as u8) {
        Some((Seq::empty(), i + 1))
    } else if s[i] == ('\\' as u8) {
        if i + 1 == s.len() {
            None
        } else {
            match unescaped(s[i + 1]) {
                None => None,
                Some(c) => match string_body(s, i + 2) {
                    None => None,
                    Some(p) => Some((seq![c] + p.0, p.1)),
                },
            }
        }
    } else {
        match string_body(s, i + 1) {
            None => None,
            Some(p) => Some((seq![s[i]] + p.0, p.1)),
        }
    }
}

/// A parsed string ends strictly after it starts, within the input.
pub proof fn lemma_string_body_advance(s: Seq<u8>, i: int)
    requires
        0 <= i <= s.len(),
    ensures
        string_body(s, i) matches Some(p) ==> i < p.1 <= s.len(),
    decreases s.len() - i,
{
    if i == s.len() {
    } else if s[i] == ('"' as u8) {
    } else if s[i] == ('\\' as u8) {
        if i + 1 < s.len() {
            lemma_string_body_advance(s, i + 2);
        }
    } else {
        lemma_string_body_advance(s, i + 1);
    }
}

/// Parses the members of an object, entered right after `{` (with
/// `first` set) or right after a `,`: the fields in order and the index
/// after the closing brace.
pub open spec fn object_rest(s: Seq<u8>, i: int, first: bool) -> Option<
    (Seq<(Seq<u8>, Seq<u8>)>, int),
>
    decreases s.len() - i,
    when 0 <= i <= s.len()
    via object_rest_decreases
{
    let j = skip_ws(s, i);
    if j == s.len() {
        None
    } else if s[j] == ('}' as u8) {
        if first {
            Some((Seq::empty(), j + 1))
        } else {
            None
        }
    } else if s[j] == ('"' as u8) {
        match string_body(s, j + 1) {
            None => None,
            Some(kp) => {
                let j2 = skip_ws(s, kp.1);
                if j2 == s.len() || s[j2] != (':' as u8) {
                    None
                } else {
                    let j3 = skip_ws(s, j2 + 1);
                    if j3 == s.len() || s[j3] != ('"' as u8) {
                        None
                    } else {
                        match string_body(s, j3 + 1) {
                            None => None,
                            Some(vp) => {
                                let j4 = skip_ws(s, vp.1);
                                if j4 == s.len() {
                                    None
                                } else if s[j4] == (',' as u8) {
                                    match object_rest(s, j4 + 1, false) {
                                        None => None,
                                        Some(fp) => Some(
                                            (seq![(kp.0, vp.0)] + fp.0, fp.1),
                                        ),
                                    }
                                } else if s[j4] == ('}' as u8) {
                                    Some((seq![(kp.0, vp.0)], j4 + 1))
                                } else {
                                    None
                                }
                            },
                        }
                    }
                }
            },
        }
    } else {
        None
    }
}

#[via_fn]
proof fn object_rest_decreases(s: Seq<u8>, i: int, first: bool) {
    lemma_skip_ws(s, i);
    let j = skip_ws(s, i);
    if j < s.len() && s[j] == ('"' as u8) {
        lemma_string_body_advance(s, j + 1);
        match string_body(s, j + 1) {
            None => {},
            Some(kp) => {
                lemma_skip_ws(s, kp.1);
                let j2 = skip_ws(s, kp.1);
                if j2 < s.len() && s[j2] == (':' as u8) {
                    lemma_skip_ws(s, j2 + 1);
                    let j3 = skip_ws(s, j2 + 1);
                    if j3 < s.len() && s[j3] == ('"' as u8) {
                        lemma_string_body_advance(s, j3 + 1);
                        match string_body(s, j3 + 1) {
                            None => {},
                            Some(vp) => {
                                lemma_skip_ws(s, vp.1);
                            },
                        }
                    }
                }
            },
        }
    }
}

/// The value of the first field named `key`, if any.
pub open spec fn find_field(fields: Seq<(Seq<u8>, Seq<u8>)>, key: Seq<u8>) -> Option<Seq<u8>>
    decreases fields.len(),
{
    if fields.len() == 0 {
        None
    } else if fields[0].0 == key {
        Some(fields[0].1)
    } else {
        find_field(fields.skip(1), key)
    }
}

/// What a valid JSON body must decode to: one object of string fields
/// covering the whole input, with the same field rules as the form.
pub open spec fn json_credentials(body: Seq<u8>) -> Option<(Seq<u8>, Seq<u8>)> {
    let i0 = skip_ws(body, 0);
    if i0 == body.len() || body[i0] != ('{' as u8) {
        None
    } else {
        match object_rest(body, i0 + 1, true) {
            None => None,
            Some(fp) => {
                if skip_ws(body, fp.1) != body.len() {
                    None
                } else {
                    match find_field(fp.0, ssid_key()) {
                        None => None,
                        Some(ssid) => {
                            let password = match find_field(fp.0, password_key()) {
                                None => Seq::empty(),
                                Some(p) => p,
                            };
                            if 1 <= ssid.len() <= SSID_MAX && password.len() <= PASSWORD_MAX {
                                Some((ssid, password))
                            } else {
                                None
                            }
                        },
                    }
                }
            },
        }
    }
}

/// Whether the body announces itself as JSON: its first non-whitespace
/// byte is `{`.
pub open spec fn looks_like_json(body: Seq<u8>) -> bool {
    let i0 = skip_ws(body, 0);
    i0 < body.len() && body[i0] == ('{' as u8)
}

/// Finds the first non-whitespace byte at or after `from`.
pub fn scan_ws(s: &[u8], from: usize) -> (r: usize)
    requires
        from <= s@.len(),
    ensures
        r == skip_ws(s@, from as int),
        from <= r <= s@.len(),
{
    let mut i: usize = from;
    while i < s.len() && (s[i] == (' ' as u8) || s[i] == ('\t' as u8) || s[i] == ('\n' as u8) || s[i]
        == ('\r' as u8))
        invariant
            from <= i <= s@.len(),
            skip_ws(s@, from as int) == skip_ws(s@, i as int),
        decreases s@.len() - i,
    {
        i = i + 1;
    }
    i
}

/// Decodes one escape character.
fn unescape_byte(b: u8) -> (r: Option<u8>)
    ensures
        r == unescaped(b),
{
    if b == ('"' as u8) {
        Some('"' as u8)
    } else if b == ('\\' as u8) {
        Some('\\' as u8)
    } else if b == ('/' as u8) {
        Some('/' as u8)
    } else if b == ('b' as u8) {
        Some(8u8)
    } else if b == ('f' as u8) {
        Some(12u8)
    } else if b == ('n' as u8) {
        Some('\n' as u8)
    } else if b == ('r' as u8) {
        Some('\r' as u8)
    } else if b == ('t' as u8) {
        Some('\t' as u8)
    } else {
        None
    }
}

/// Parses a string body starting right after its opening quote.
fn parse_string_at(s: &[u8], start: usize) -> (r: Option<(Vec<u8>, usize)>)
    requires
        start <= s@.len(),
    ensures
        match r {
            Some(p) => {
                &&& string_body(s@, start as int) matches Some(q)
                &&& q.0 == p.0@
                &&& q.1 == p.1
                &&& start < p.1 <= s@.len()
            },
            None => string_body(s@, start as int) is None,
        },
{
    let mut acc: Vec<u8> = Vec::new();
    let mut i: usize = start;
    loop
        invariant
            start <= i <= s@.len(),
            ({
                match string_body(s@, i as int) {
                    Some(p) => string_body(s@, start as int) == Some((acc@ + p.0, p.1)),
                    None => string_body(s@, start as int) is None,
                }
            }),
        decreases s@.len() - i,
    {
        if i == s.len() {
            return None;
        }
        let b = s[i];
        if b == ('"' as u8) {
            proof {
                assert(acc@ + Seq::<u8>::empty() =~= acc@);
                lemma_string_body_advance(s@, start as int);
            }
            return Some((acc, i + 1));
        }
        if b == ('\\' as u8) {
            if i + 1 == s.len() {
                return None;
            }
            match unescape_byte(s[i + 1]) {
                None => {
                    return None;
                },
                Some(c) => {
                    proof {
                        match string_body(s@, i + 2) {
                            Some(p) => {
                                assert(acc@ + (seq![c] + p.0) =~= acc@.push(c) + p.0);
                            },
                            None => {},
                        }
                    }
                    acc.push(c);
                    i = i + 2;
                },
            }
        } else {
            proof {
                match string_body(s@, i + 1) {
                    Some(p) => {
                        assert(acc@ + (seq![b] + p.0) =~= acc@.push(b) + p.0);
                    },
                    None => {},
                }
            }
            acc.push(b);
            i = i + 1;
        }
    }
}

/// Parses the members of an object, entered right after `{` (with
/// `first` set) or right after a `,`.
fn parse_object_rest(s: &[u8], i: usize, first: bool) -> (r: Option<
    (Vec<(Vec<u8>, Vec<u8>)>, usize),
>)
    requires
        i <= s@.len(),
    ensures
        match r {
            Some(p) => {
                &&& object_rest(s@, i as int, first) matches Some(q)
                &&& q.1 == p.1
                &&& p.1 <= s@.len()
                &&& q.0.len() == p.0@.len()
                &&& forall|m: int|
                    0 <= m < q.0.len() ==> q.0[m].0 == (#[trigger] p.0@[m]).0@ && q.0[m].1
                        == p.0@[m].1@
            },
            None => object_rest(s@, i as int, first) is None,
        },
    decreases s@.len() - i,
{
    let j = scan_ws(s, i);
    if j == s.len() {
        return None;
    }
    if s[j] == ('}' as u8) {
        if first {
            return Some((Vec::new(), j + 1));
        } else {
            return None;
        }
    }
    if s[j] != ('"' as u8) {
        return None;
    }
    let (key, after_key) = match parse_string_at(s, j + 1) {
        None => {
            return None;
        },
        Some(p) => p,
    };
    let j2 = scan_ws(s, after_key);
    if j2 == s.len() {
        return None;
    }
    if s[j2] != (':' as u8) {
        return None;
    }
    let j3 = scan_ws(s, j2 + 1);
    if j3 == s.len() {
        return None;
    }
    if s[j3] != ('"' as u8) {
        return None;
    }
    let (value, after_value) = match parse_string_at(s, j3 + 1) {
        None => {
            return None;
        },
        Some(p) => p,
    };
    let j4 = scan_ws(s, after_value);
    if j4 == s.len() {
        return None;
    }
    if s[j4] == (',' as u8) {
        match parse_object_rest(s, j4 + 1, false) {
            None => {
                return None;
            },
            Some((mut fields, end)) => {
                fields.insert(0, (key, value));
                return Some((fields, end));
            },
        }
    }
    if s[j4] == ('}' as u8) {
        let mut fields: Vec<(Vec<u8>, Vec<u8>)> = Vec::new();
        fields.push((key, value));
        return Some((fields, j4 + 1));
    }
    None
}

/// Looks up `key` among parsed fields, first occurrence winning.
fn lookup_parsed(fields: &Vec<(Vec<u8>, Vec<u8>)>, spec_fields: Ghost<Seq<(Seq<u8>, Seq<u8>)>>, key: &[u8]) -> (r:
    Option<Vec<u8>>)
    requires
        spec_fields@.len() == fields@.len(),
        forall|m: int|
            0 <= m < spec_fields@.len() ==> spec_fields@[m].0 == (#[trigger] fields@[m]).0@
                && spec_fields@[m].1 == fields@[m].1@,
    ensures
        match r {
            Some(v) => find_field(spec_fields@, key@) == Some(v@),
            None => find_field(spec_fields@, key@) is None,
        },
{
    let mut m: usize = 0;
    proof {
        assert(spec_fields@.skip(0) =~= spec_fields@);
    }
    while m < fields.len()
        invariant
            m <= fields@.len(),
            spec_fields@.len() == fields@.len(),
            forall|k: int|
                0 <= k < spec_fields@.len() ==> spec_fields@[k].0 == (#[trigger] fields@[k]).0@
                    && spec_fields@[k].1 == fields@[k].1@,
            find_field(spec_fields@, key@) == find_field(spec_fields@.skip(m as int), key@),
        decreases fields@.len() - m,
    {
        proof {
            assert(spec_fields@.skip(m as int)[0] == spec_fields[m as int]);
            assert(spec_fields@.skip(m as int).skip(1) =~= spec_fields@.skip(m + 1));
        }
        if crate::bytes::bytes_eq(fields[m].0.as_slice(), key) {
            return Some(crate::bytes::copy_bytes(fields[m].1.as_slice()));
        }
        m = m + 1;
    }
    None
}

/// Parses the JSON provisioning body into credentials, exactly when it is
/// one whole object of string fields with a non-empty `ssid` in bounds.
pub fn parse_json(body: &[u8]) -> (r: Option<WifiCredentials>)
    ensures
        match r {
            Some(c) => {
                &&& json_credentials(body@) matches Some(f)
                &&& c.ssid@ == f.0
                &&& c.password@ == f.1
                &&& c.well_formed()
            },
            None => json_credentials(body@) is None,
        },
{
    let i0 = scan_ws(body, 0);
    if i0 == body.len() {
        return None;
    }
    if body[i0] != ('{' as u8) {
        return None;
    }
    let (fields, end) = match parse_object_rest(body, i0 + 1, true) {
        None => {
            return None;
        },
        Some(p) => p,
    };
    let ghost spec_fields: Seq<(Seq<u8>, Seq<u8>)> = object_rest(body@, i0 + 1, true)->Some_0.0;
    let after = scan_ws(body, end);
    if after != body.len() {
        return None;
    }
    let skey: &str = "ssid";
    let pkey: &str = "password";
    proof {
        reveal_strlit("ssid");
        reveal_strlit("password");
        assert(skey.is_ascii());
        assert(pkey.is_ascii());
    }
    let skey_bytes = skey.as_bytes();
    let pkey_bytes = pkey.as_bytes();
    proof {
        assert(skey_bytes@ =~= ssid_key());
        assert(pkey_bytes@ =~= password_key());
    }
    let ssid = match lookup_parsed(&fields, Ghost(spec_fields), skey_bytes) {
        None => {
            return None;
        },
        Some(v) => v,
    };
    let password = match lookup_parsed(&fields, Ghost(spec_fields), pkey_bytes) {
        None => Vec::new(),
        Some(v) => v,
    };
    if 1 <= ssid.len() && ssid.len() <= SSID_MAX && password.len() <= PASSWORD_MAX {
        Some(WifiCredentials { ssid, password })
    } else {
        None
    }
}

/// Whether the body announces itself as JSON.
pub fn is_json_body(body: &[u8]) -> (r: bool)
    ensures
        r == looks_like_json(body@),
{
    let i0 = scan_ws(body, 0);
    if i0 == body.len() {
        false
    } else {
        body[i0] == ('{' as u8)
    }
}

} // verus!
