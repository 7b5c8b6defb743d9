use provisioner::channel::CredentialSlot;
use provisioner::portal::{
    handle_request, route, HandleOutcome, Method, PortalResponse, RouteTarget,
};

fn empty_slot() -> CredentialSlot {
    CredentialSlot::new()
}

#[test]
fn probe_paths_redirect() {
    let probes: [&[u8]; 4] = [
        b"/generate_204",
        b"/gen_204",
        b"/ncsi.txt",
        b"/connecttest.txt",
    ];
    for path in probes {
        let mut slot = empty_slot();
        let r = handle_request(Method::Get, path, b"", &mut slot);
        assert_eq!(r, HandleOutcome::Done(PortalResponse::Redirect));
        assert!(!slot.is_full());
    }
}

#[test]
fn probe_redirect_is_idempotent() {
    let mut slot = empty_slot();
    let first = handle_request(Method::Get, b"/generate_204", b"", &mut slot);
    let second = handle_request(Method::Get, b"/generate_204", b"", &mut slot);
    assert_eq!(first, second);
    let HandleOutcome::Done(resp) = first else {
        panic!("expected a response");
    };
    assert_eq!(resp.status_code(), 302);
    assert_eq!(resp.location(), Some(b"/".to_vec()));
    let HandleOutcome::Done(resp2) = second else {
        panic!("expected a response");
    };
    assert_eq!(resp2.status_code(), 302);
    assert_eq!(resp2.location(), Some(b"/".to_vec()));
}

#[test]
fn apple_check_gets_success_body() {
    let mut slot = empty_slot();
    let r = handle_request(Method::Get, b"/hotspot-detect.html", b"", &mut slot);
    assert_eq!(r, HandleOutcome::Done(PortalResponse::ProbeSuccess));
    let HandleOutcome::Done(resp) = r else {
        panic!("expected a response");
    };
    assert_eq!(resp.status_code(), 200);
    assert_eq!(resp.location(), None);
}

#[test]
fn home_serves_form_page() {
    let mut slot = empty_slot();
    let r = handle_request(Method::Get, b"/", b"", &mut slot);
    assert_eq!(r, HandleOutcome::Done(PortalResponse::FormPage));
}

#[test]
fn unknown_routes_get_404() {
    let mut slot = empty_slot();
    assert_eq!(
        handle_request(Method::Get, b"/elsewhere", b"", &mut slot),
        HandleOutcome::Done(PortalResponse::NotFound)
    );
    assert_eq!(
        handle_request(Method::Post, b"/", b"", &mut slot),
        HandleOutcome::Done(PortalResponse::NotFound)
    );
    // The probe rewrite applies to GET only.
    assert_eq!(
        handle_request(Method::Post, b"/generate_204", b"", &mut slot),
        HandleOutcome::Done(PortalResponse::NotFound)
    );
    assert_eq!(
        handle_request(Method::Other, b"/save", b"", &mut slot),
        HandleOutcome::Done(PortalResponse::NotFound)
    );
}

#[test]
fn route_table_matches() {
    assert_eq!(route(Method::Get, b"/"), RouteTarget::Home);
    assert_eq!(route(Method::Post, b"/save"), RouteTarget::SaveForm);
    assert_eq!(route(Method::Get, b"/gen_204"), RouteTarget::ProbeRedirect);
    assert_eq!(route(Method::Get, b"/hotspot-detect.html"), RouteTarget::AppleCheck);
    assert_eq!(route(Method::Get, b"/save"), RouteTarget::Unknown);
}

#[test]
fn form_round_trip_decodes_escapes() {
    let mut slot = empty_slot();
    let r = handle_request(
        Method::Post,
        b"/save",
        b"ssid=MyNet&password=Secret%201",
        &mut slot,
    );
    assert_eq!(r, HandleOutcome::Done(PortalResponse::SavedPage));
    let creds = slot.try_receive().expect("credentials delivered");
    assert_eq!(creds.ssid, b"MyNet".to_vec());
    assert_eq!(creds.password, b"Secret 1".to_vec());
}

#[test]
fn form_round_trip_plus_decodes_to_space() {
    let mut slot = empty_slot();
    let r = handle_request(Method::Post, b"/save", b"ssid=MyNet&password=Secret+1", &mut slot);
    assert_eq!(r, HandleOutcome::Done(PortalResponse::SavedPage));
    let creds = slot.try_receive().expect("credentials delivered");
    assert_eq!(creds.ssid, b"MyNet".to_vec());
    assert_eq!(creds.password, b"Secret 1".to_vec());
}

#[test]
fn form_decodes_non_alphanumeric_byte() {
    let mut slot = empty_slot();
    let r = handle_request(Method::Post, b"/save", b"ssid=Caf%C3%A9&password=a%21b", &mut slot);
    assert_eq!(r, HandleOutcome::Done(PortalResponse::SavedPage));
    let creds = slot.try_receive().expect("credentials delivered");
    assert_eq!(creds.ssid, b"Caf\xc3\xa9".to_vec());
    assert_eq!(creds.password, b"a!b".to_vec());
}

#[test]
fn missing_password_defaults_to_empty() {
    let mut slot = empty_slot();
    let r = handle_request(Method::Post, b"/save", b"ssid=MyNet", &mut slot);
    assert_eq!(r, HandleOutcome::Done(PortalResponse::SavedPage));
    let creds = slot.try_receive().expect("credentials delivered");
    assert_eq!(creds.ssid, b"MyNet".to_vec());
    assert_eq!(creds.password, Vec::<u8>::new());
}

#[test]
fn missing_ssid_is_rejected() {
    let mut slot = empty_slot();
    let r = handle_request(Method::Post, b"/save", b"password=Secret", &mut slot);
    assert_eq!(r, HandleOutcome::Done(PortalResponse::BadRequest));
    assert!(!slot.is_full());
}

#[test]
fn empty_ssid_is_rejected() {
    let mut slot = empty_slot();
    let r = handle_request(Method::Post, b"/save", b"ssid=&password=Secret", &mut slot);
    assert_eq!(r, HandleOutcome::Done(PortalResponse::BadRequest));
}

#[test]
fn overlong_ssid_is_rejected() {
    let mut slot = empty_slot();
    let mut body = b"ssid=".to_vec();
    body.extend(std::iter::repeat(b'x').take(33));
    let r = handle_request(Method::Post, b"/save", &body, &mut slot);
    assert_eq!(r, HandleOutcome::Done(PortalResponse::BadRequest));
    // 32 bytes is still accepted.
    let mut slot = empty_slot();
    let mut body = b"ssid=".to_vec();
    body.extend(std::iter::repeat(b'x').take(32));
    let r = handle_request(Method::Post, b"/save", &body, &mut slot);
    assert_eq!(r, HandleOutcome::Done(PortalResponse::SavedPage));
}

#[test]
fn overlong_password_is_rejected() {
    let mut slot = empty_slot();
    let mut body = b"ssid=net&password=".to_vec();
    body.extend(std::iter::repeat(b'y').take(65));
    let r = handle_request(Method::Post, b"/save", &body, &mut slot);
    assert_eq!(r, HandleOutcome::Done(PortalResponse::BadRequest));
}

#[test]
fn json_submission_is_accepted() {
    let mut slot = empty_slot();
    let r = handle_request(
        Method::Post,
        b"/save",
        b"{\"ssid\": \"MyNet\", \"password\": \"p w\"}",
        &mut slot,
    );
    assert_eq!(r, HandleOutcome::Done(PortalResponse::SavedPage));
    let creds = slot.try_receive().expect("credentials delivered");
    assert_eq!(creds.ssid, b"MyNet".to_vec());
    assert_eq!(creds.password, b"p w".to_vec());
}

#[test]
fn json_escapes_decode() {
    let mut slot = empty_slot();
    let r = handle_request(
        Method::Post,
        b"/save",
        b"{\"ssid\":\"A\\\"B\",\"password\":\"a\\\\b\\n\"}",
        &mut slot,
    );
    assert_eq!(r, HandleOutcome::Done(PortalResponse::SavedPage));
    let creds = slot.try_receive().expect("credentials delivered");
    assert_eq!(creds.ssid, b"A\"B".to_vec());
    assert_eq!(creds.password, b"a\\b\n".to_vec());
}

#[test]
fn json_unknown_fields_are_ignored() {
    let mut slot = empty_slot();
    let r = handle_request(
        Method::Post,
        b"/save",
        b"{\"note\":\"x\",\"ssid\":\"N\",\"password\":\"p\"}",
        &mut slot,
    );
    assert_eq!(r, HandleOutcome::Done(PortalResponse::SavedPage));
    let creds = slot.try_receive().expect("credentials delivered");
    assert_eq!(creds.ssid, b"N".to_vec());
}

#[test]
fn malformed_json_is_rejected() {
    let cases: [&[u8]; 5] = [
        b"{\"ssid\":\"N\"",
        b"{\"ssid\":42}",
        b"{\"password\":\"p\"}",
        b"{\"ssid\":\"N\",}",
        b"{\"ssid\":\"N\"} trailing",
    ];
    for body in cases {
        let mut slot = empty_slot();
        let r = handle_request(Method::Post, b"/save", body, &mut slot);
        assert_eq!(r, HandleOutcome::Done(PortalResponse::BadRequest), "body: {body:?}");
    }
}

#[test]
fn empty_body_is_rejected() {
    let mut slot = empty_slot();
    let r = handle_request(Method::Post, b"/save", b"", &mut slot);
    assert_eq!(r, HandleOutcome::Done(PortalResponse::BadRequest));
}

#[test]
fn full_slot_blocks_second_submission() {
    let mut slot = empty_slot();
    let first = handle_request(Method::Post, b"/save", b"ssid=one", &mut slot);
    assert_eq!(first, HandleOutcome::Done(PortalResponse::SavedPage));
    // A second valid submission must wait: nothing is dropped or replaced.
    let second = handle_request(Method::Post, b"/save", b"ssid=two", &mut slot);
    assert_eq!(second, HandleOutcome::MustWait);
    let creds = slot.try_receive().expect("first submission still in flight");
    assert_eq!(creds.ssid, b"one".to_vec());
    // Once drained, the retry goes through.
    let retry = handle_request(Method::Post, b"/save", b"ssid=two", &mut slot);
    assert_eq!(retry, HandleOutcome::Done(PortalResponse::SavedPage));
    let creds = slot.try_receive().expect("second submission delivered");
    assert_eq!(creds.ssid, b"two".to_vec());
}

#[test]
fn apple_success_body_is_literal() {
    let resp = PortalResponse::ProbeSuccess;
    assert_eq!(resp.fixed_body(), Some(b"Success".to_vec()));
    assert_eq!(PortalResponse::Redirect.fixed_body(), None);
    assert_eq!(PortalResponse::FormPage.fixed_body(), None);
}

#[test]
fn json_unicode_escapes_are_rejected() {
    let mut slot = empty_slot();
    let r = handle_request(
        Method::Post,
        b"/save",
        b"{\"ssid\":\"a\\u0041\"}",
        &mut slot,
    );
    assert_eq!(r, HandleOutcome::Done(PortalResponse::BadRequest));
}

#[test]
fn fixed_identifiers_match_configuration() {
    assert_eq!(provisioner::wifi::access_point_ssid(), "esp-radio");
    assert_eq!(provisioner::telemetry::client_id(), "esp32c3");
    assert_eq!(provisioner::portal::HTTP_PORT, 80);
    assert_eq!(provisioner::net::DEFAULT_BROKER_PORT, 1884);
    assert_eq!(provisioner::download::UPDATE_PORT, 8080);
}

#[test]
fn empty_json_object_is_rejected() {
    let mut slot = empty_slot();
    let r = handle_request(Method::Post, b"/save", b"{}", &mut slot);
    assert_eq!(r, HandleOutcome::Done(PortalResponse::BadRequest));
    let r = handle_request(Method::Post, b"/save", b"  { }  ", &mut slot);
    assert_eq!(r, HandleOutcome::Done(PortalResponse::BadRequest));
}
