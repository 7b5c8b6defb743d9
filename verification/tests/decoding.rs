use provisioner::form::parse_form;
use provisioner::percent::percent_decode;

#[test]
fn percent_decode_passes_plain_bytes() {
    assert_eq!(percent_decode(b"abc"), b"abc".to_vec());
    assert_eq!(percent_decode(b""), Vec::<u8>::new());
}

#[test]
fn percent_decode_plus_and_escapes() {
    assert_eq!(percent_decode(b"a+b"), b"a b".to_vec());
    assert_eq!(percent_decode(b"%20"), b" ".to_vec());
    assert_eq!(percent_decode(b"%41%62%63"), b"Abc".to_vec());
    assert_eq!(percent_decode(b"x%2Fy"), b"x/y".to_vec());
    assert_eq!(percent_decode(b"x%2fy"), b"x/y".to_vec());
}

#[test]
fn percent_decode_is_lenient_on_malformed_escapes() {
    // A `%` without two hex digits passes through literally.
    assert_eq!(percent_decode(b"%"), b"%".to_vec());
    assert_eq!(percent_decode(b"%2"), b"%2".to_vec());
    assert_eq!(percent_decode(b"%G1a"), b"%G1a".to_vec());
    assert_eq!(percent_decode(b"a%%41"), b"a%A".to_vec());
}

#[test]
fn form_parser_takes_first_matching_pair() {
    let creds = parse_form(b"ssid=first&ssid=second").expect("parses");
    assert_eq!(creds.ssid, b"first".to_vec());
}

#[test]
fn form_parser_decodes_keys_too() {
    let creds = parse_form(b"ss%69d=net").expect("parses");
    assert_eq!(creds.ssid, b"net".to_vec());
}

#[test]
fn form_parser_rejects_garbage() {
    assert!(parse_form(b"").is_none());
    assert!(parse_form(b"&&&").is_none());
    assert!(parse_form(b"user=x&pass=y").is_none());
}

#[test]
fn form_value_keeps_later_equals_signs() {
    let creds = parse_form(b"ssid=a=b").expect("parses");
    assert_eq!(creds.ssid, b"a=b".to_vec());
}
