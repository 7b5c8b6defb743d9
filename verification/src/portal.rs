//! The captive-portal HTTP server's routing and request handling.
//!
//! The portal serves the provisioning form at `/`, accepts the submitted
//! credentials at `/save` (URL-encoded or JSON), rewrites the operating
//! systems' connectivity probe paths to a redirect at `/` - which is what
//! makes the portal captive - answers Apple's success check with its
//! expected literal body, and refuses everything else. A valid submission
//! is pushed into the credential slot before the confirmation page goes
//! out; while the slot is full the handler waits rather than drop it.

use vstd::prelude::*;
use vstd::string::StringSliceAdditionalSpecFns;

use crate::channel::CredentialSlot;
use crate::form::form_credentials;
use crate::json::{json_credentials, looks_like_json};

verus! {

/// The portal's TCP port.
pub const HTTP_PORT: u16 = 80;

/// The captive DNS resolver's UDP port.
pub const DNS_PORT: u16 = 8853;

/// How long a failed DHCP or DNS serve loop waits before rebinding, in
/// milliseconds. The portal's services never terminate: every error is
/// logged and the loop restarts.
pub const SERVICE_RESTART_MILLIS: u64 = 500;

/// How long the HTTP accept loop waits after an error before listening
/// again, in milliseconds.
pub const HTTP_RESTART_MILLIS: u64 = 100;

/// The TTL of the captive resolver's answers, in seconds; every query
/// resolves to the gateway's own address.
pub const DNS_TTL_SECS: u32 = 60;

/// The most submission-body bytes the server reads; a longer body is
/// truncated to this before parsing.
pub const BODY_BUFFER_MAX: usize = 256;

/// The request methods the portal distinguishes.
#[derive(Clone, Copy, PartialEq, Eq, Debug, Structural)]
pub enum Method {
    Get,
    Post,
    Other,
}

/// Where a request lands.
#[derive(Clone, Copy, PartialEq, Eq, Debug, Structural)]
pub enum RouteTarget {
    /// `GET /`: the provisioning form.
    Home,
    /// `POST /save`: a credential submission.
    SaveForm,
    /// `GET` on a connectivity probe path: redirect to `/`.
    ProbeRedirect,
    /// `GET` on Apple's success-check path: the literal success body.
    AppleCheck,
    /// Anything else.
    Unknown,
}

/// The probe paths that redirect to the form.
pub open spec fn probe_redirect_path(path: Seq<u8>) -> bool {
    ||| path == "/generate_204".spec_bytes()
    ||| path == "/gen_204".spec_bytes()
    ||| path == "/ncsi.txt".spec_bytes()
    ||| path == "/connecttest.txt".spec_bytes()
}

/// Apple's captive-check path, answered with a literal `Success` body.
pub open spec fn apple_check_path(path: Seq<u8>) -> bool {
    path == "/hotspot-detect.html".spec_bytes()
}

/// The routing table.
pub open spec fn spec_route(method: Method, path: Seq<u8>) -> RouteTarget {
    if method is Get && probe_redirect_path(path) {
        RouteTarget::ProbeRedirect
    } else if method is Get && apple_check_path(path) {
        RouteTarget::AppleCheck
    } else if method is Get && path == "/".spec_bytes() {
        RouteTarget::Home
    } else if method is Post && path == "/save".spec_bytes() {
        RouteTarget::SaveForm
    } else {
        RouteTarget::Unknown
    }
}

/// Routes one request line.
pub fn route(method: Method, path: &[u8]) -> (r: RouteTarget)
    ensures
        r == spec_route(method, path@),
{
    match method {
        Method::Get => {
            if crate::bytes::bytes_eq(path, "/generate_204".as_bytes()) || crate::bytes::bytes_eq(
                path,
                "/gen_204".as_bytes(),
            ) || crate::bytes::bytes_eq(path, "/ncsi.txt".as_bytes()) || crate::bytes::bytes_eq(
                path,
                "/connecttest.txt".as_bytes(),
            ) {
                RouteTarget::ProbeRedirect
            } else if crate::bytes::bytes_eq(path, "/hotspot-detect.html".as_bytes()) {
                RouteTarget::AppleCheck
            } else if crate::bytes::bytes_eq(path, "/".as_bytes()) {
                RouteTarget::Home
            } else {
                RouteTarget::Unknown
            }
        },
        Method::Post => {
            if crate::bytes::bytes_eq(path, "/save".as_bytes()) {
                RouteTarget::SaveForm
            } else {
                RouteTarget::Unknown
            }
        },
        Method::Other => RouteTarget::Unknown,
    }
}

/// What the portal answers.
#[derive(Clone, Copy, PartialEq, Eq, Debug, Structural)]
pub enum PortalResponse {
    /// 200 with the provisioning form page.
    FormPage,
    /// 200 with the confirmation page.
    SavedPage,
    /// 302 with `Location: /`.
    Redirect,
    /// 200 with the literal `Success` body Apple's detector expects.
    ProbeSuccess,
    /// 400 on a submission that does not parse.
    BadRequest,
    /// 404 for every unknown route.
    NotFound,
}

impl PortalResponse {
    /// The status code of each answer.
    pub open spec fn spec_status(self) -> int {
        match self {
            PortalResponse::FormPage => 200,
            PortalResponse::SavedPage => 200,
            PortalResponse::Redirect => 302,
            PortalResponse::ProbeSuccess => 200,
            PortalResponse::BadRequest => 400,
            PortalResponse::NotFound => 404,
        }
    }

    /// The status code sent on the wire.
    pub fn status_code(&self) -> (s: u16)
        ensures
            s == self.spec_status(),
    {
        match self {
            PortalResponse::FormPage => 200,
            PortalResponse::SavedPage => 200,
            PortalResponse::Redirect => 302,
            PortalResponse::ProbeSuccess => 200,
            PortalResponse::BadRequest => 400,
            PortalResponse::NotFound => 404,
        }
    }

    /// The fixed literal body of the Apple success check; the form and
    /// confirmation pages are HTML assets the server task supplies.
    pub fn fixed_body(&self) -> (b: Option<Vec<u8>>)
        ensures
            match b {
                Some(v) => self is ProbeSuccess && v@ == "Success".spec_bytes(),
                None => !(self is ProbeSuccess),
            },
    {
        match self {
            PortalResponse::ProbeSuccess => {
                let s: &str = "Success";
                Some(crate::bytes::copy_bytes(s.as_bytes()))
            },
            _ => None,
        }
    }

    /// The `Location` header: `/` on the captive redirect, nothing else.
    pub fn location(&self) -> (l: Option<Vec<u8>>)
        ensures
            match l {
                Some(v) => self is Redirect && v@ == "/".spec_bytes(),
                None => !(self is Redirect),
            },
    {
        match self {
            PortalResponse::Redirect => {
                let slash: &str = "/";
                Some(crate::bytes::copy_bytes(slash.as_bytes()))
            },
            _ => None,
        }
    }
}

/// The credentials a submission body denotes: JSON when it opens with
/// `{`, URL-encoded otherwise.
pub open spec fn body_credentials(body: Seq<u8>) -> Option<(Seq<u8>, Seq<u8>)> {
    if looks_like_json(body) {
        json_credentials(body)
    } else {
        form_credentials(body)
    }
}

/// Parses a submission body, URL-encoded or JSON.
pub fn parse_body(body: &[u8]) -> (r: Option<crate::creds::WifiCredentials>)
    ensures
        match r {
            Some(c) => {
                &&& body_credentials(body@) matches Some(f)
                &&& c.ssid@ == f.0
                &&& c.password@ == f.1
                &&& c.well_formed()
            },
            None => body_credentials(body@) is None,
        },
{
    if crate::json::is_json_body(body) {
        crate::json::parse_json(body)
    } else {
        crate::form::parse_form(body)
    }
}

/// The outcome of handling one request.
#[derive(Clone, Copy, PartialEq, Eq, Debug, Structural)]
pub enum HandleOutcome {
    /// The response to send.
    Done(PortalResponse),
    /// A valid submission found the slot still full: nothing is dropped
    /// or overwritten; the handler must wait for the consumer and try
    /// again.
    MustWait,
}

/// Handles one drained request: routes it, parses a submission, delivers
/// valid credentials into the slot, and names the response owed.
pub fn handle_request(
    method: Method,
    path: &[u8],
    body: &[u8],
    slot: &mut CredentialSlot,
) -> (r: HandleOutcome)
    ensures
        ({
            let target = spec_route(method, path@);
            match target {
                RouteTarget::Home => r == HandleOutcome::Done(PortalResponse::FormPage)
                    && *final(slot) == *old(slot),
                RouteTarget::ProbeRedirect => r == HandleOutcome::Done(PortalResponse::Redirect)
                    && *final(slot) == *old(slot),
                RouteTarget::AppleCheck => r == HandleOutcome::Done(PortalResponse::ProbeSuccess)
                    && *final(slot) == *old(slot),
                RouteTarget::Unknown => r == HandleOutcome::Done(PortalResponse::NotFound)
                    && *final(slot) == *old(slot),
                RouteTarget::SaveForm => match body_credentials(body@) {
                    None => r == HandleOutcome::Done(PortalResponse::BadRequest) && *final(slot)
                        == *old(slot),
                    Some(f) => {
                        if old(slot).pending is None {
                            &&& r == HandleOutcome::Done(PortalResponse::SavedPage)
                            &&& final(slot).pending matches Some(c) && c.ssid@ == f.0
                                && c.password@ == f.1
                        } else {
                            &&& r == HandleOutcome::MustWait
                            &&& *final(slot) == *old(slot)
                        }
                    },
                },
            }
        }),
{
    match route(method, path) {
        RouteTarget::Home => HandleOutcome::Done(PortalResponse::FormPage),
        RouteTarget::ProbeRedirect => HandleOutcome::Done(PortalResponse::Redirect),
        RouteTarget::AppleCheck => HandleOutcome::Done(PortalResponse::ProbeSuccess),
        RouteTarget::Unknown => HandleOutcome::Done(PortalResponse::NotFound),
        RouteTarget::SaveForm => {
            match parse_body(body) {
                None => HandleOutcome::Done(PortalResponse::BadRequest),
                Some(creds) => {
                    if slot.try_send(creds) {
                        HandleOutcome::Done(PortalResponse::SavedPage)
                    } else {
                        HandleOutcome::MustWait
                    }
                },
            }
        },
    }
}

/// The captive redirect is idempotent: what a `GET` to a probe path
/// answers is fixed - status 302, location `/` - whatever the request's
/// surroundings, so repeating the request repeats the identical answer.
pub proof fn lemma_probe_redirect_idempotent(path: Seq<u8>)
    requires
        probe_redirect_path(path),
    ensures
        spec_route(Method::Get, path) == RouteTarget::ProbeRedirect,
        (PortalResponse::Redirect).spec_status() == 302,
{
}

} // verus!
