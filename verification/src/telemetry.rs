//! The telemetry publisher: sensor readings to the message broker.
//!
//! Readings arrive as hundredths of a unit (centidegrees Celsius,
//! centipercent relative humidity) and are published as ASCII decimal
//! strings with exactly two fraction digits, each under its fixed topic,
//! with QoS-1 and the retain flag set. The publisher runs forever: any
//! network failure backs off and restarts the connection from the top;
//! other broker errors are non-fatal and the inner loop continues.

use vstd::prelude::*;
use vstd::string::StringSliceAdditionalSpecFns;

verus! {

/// The broker session's largest accepted packet, in bytes.
pub const MAX_PACKET_SIZE: u32 = 1024;

/// The fixed client identifier of the broker session.
pub fn client_id() -> (s: &'static str)
    ensures
        s@ == "esp32c3"@,
{
    "esp32c3"
}

/// The pause between published readings, in milliseconds.
pub const PUBLISH_INTERVAL_MILLIS: u64 = 1000;

/// The fixed delay before any retry of the connection loop, in
/// milliseconds.
pub const RETRY_BACKOFF_MILLIS: u64 = 5000;

/// The ASCII digit for `d`.
pub open spec fn digit_byte(d: nat) -> u8
    recommends
        d < 10,
{
    (('0' as u8) + d) as u8
}

/// The decimal digits of `n`, most significant first, without leading
/// zeros (`0` is `"0"`).
pub open spec fn dec_digits(n: nat) -> Seq<u8>
    decreases n,
{
    if n < 10 {
        seq![digit_byte(n)]
    } else {
        dec_digits(n / 10).push(digit_byte(n % 10))
    }
}

/// `n` hundredths rendered with two fraction digits, e.g. `2150` is
/// `"21.50"`.
pub open spec fn centi_magnitude(n: nat) -> Seq<u8> {
    dec_digits(n / 100) + seq![('.' as u8), digit_byte((n % 100) / 10), digit_byte((n % 100) % 10)]
}

/// A signed reading in hundredths rendered with two fraction digits,
/// e.g. `-501` is `"-5.01"`.
pub open spec fn centi_ascii(v: int) -> Seq<u8> {
    if v >= 0 {
        centi_magnitude(v as nat)
    } else {
        seq![('-' as u8)] + centi_magnitude((-v) as nat)
    }
}

/// Appends the decimal digits of `n`.
fn push_decimal(out: &mut Vec<u8>, n: u64)
    ensures
        final(out)@ == old(out)@ + dec_digits(n as nat),
    decreases n,
{
    if n < 10 {
        out.push('0' as u8 + n as u8);
    } else {
        proof {
            assert(n / 10 < n) by (nonlinear_arith)
                requires
                    n >= 10,
            ;
        }
        push_decimal(out, n / 10);
        out.push('0' as u8 + (n % 10) as u8);
        proof {
            assert(old(out)@ + dec_digits((n / 10) as nat) + seq![digit_byte((n % 10) as nat)]
                =~= old(out)@ + dec_digits(n as nat));
        }
    }
}

/// Renders a reading in hundredths as an ASCII decimal string with two
/// fraction digits, as the broker payload expects.
pub fn format_centi(v: i32) -> (r: Vec<u8>)
    ensures
        r@ == centi_ascii(v as int),
{
    let mut out: Vec<u8> = Vec::new();
    let magnitude: u32 = if v >= 0 {
        v as u32
    } else {
        out.push('-' as u8);
        (-(v as i64)) as u32
    };
    let whole: u32 = magnitude / 100;
    let frac: u32 = magnitude % 100;
    push_decimal(&mut out, whole as u64);
    out.push('.' as u8);
    out.push('0' as u8 + (frac / 10) as u8);
    out.push('0' as u8 + (frac % 10) as u8);
    proof {
        if v >= 0 {
            assert(out@ =~= centi_ascii(v as int));
        } else {
            assert(out@ =~= seq![('-' as u8)] + centi_magnitude((-(v as int)) as nat));
        }
    }
    out
}

/// One QoS-1, retained publish the driver must perform.
pub struct PublishCommand {
    pub topic: Vec<u8>,
    pub payload: Vec<u8>,
    pub retain: bool,
}

/// The topic for temperature readings.
pub open spec fn temperature_topic() -> Seq<u8> {
    "measurement/temperature".spec_bytes()
}

/// The topic for humidity readings.
pub open spec fn humidity_topic() -> Seq<u8> {
    "measurement/humidity".spec_bytes()
}

/// The two publishes one sensor cycle calls for: the temperature and the
/// humidity reading, formatted to two fraction digits, retained, under
/// their fixed topics.
pub fn reading_publishes(temp_centi: i32, humidity_centi: i32) -> (r: Vec<PublishCommand>)
    ensures
        r@.len() == 2,
        r@[0].topic@ == temperature_topic(),
        r@[0].payload@ == centi_ascii(temp_centi as int),
        r@[0].retain,
        r@[1].topic@ == humidity_topic(),
        r@[1].payload@ == centi_ascii(humidity_centi as int),
        r@[1].retain,
{
    let t: &str = "measurement/temperature";
    let h: &str = "measurement/humidity";
    let mut out: Vec<PublishCommand> = Vec::new();
    out.push(
        PublishCommand {
            topic: crate::bytes::copy_bytes(t.as_bytes()),
            payload: format_centi(temp_centi),
            retain: true,
        },
    );
    out.push(
        PublishCommand {
            topic: crate::bytes::copy_bytes(h.as_bytes()),
            payload: format_centi(humidity_centi),
            retain: true,
        },
    );
    out
}

/// The JSON report body a sensor cycle can post over plain HTTP, e.g.
/// `{"temperature":21.50,"humidity":40.25}`.
pub open spec fn report_body_bytes(temp_centi: int, humidity_centi: int) -> Seq<u8> {
    "{\"temperature\":".spec_bytes() + centi_ascii(temp_centi) + ",\"humidity\":".spec_bytes()
        + centi_ascii(humidity_centi) + "}".spec_bytes()
}

/// Builds the JSON report body for one reading pair.
pub fn report_body(temp_centi: i32, humidity_centi: i32) -> (r: Vec<u8>)
    ensures
        r@ == report_body_bytes(temp_centi as int, humidity_centi as int),
{
    let mut out = crate::bytes::copy_bytes("{\"temperature\":".as_bytes());
    let t = format_centi(temp_centi);
    crate::bytes::append_bytes(&mut out, t.as_slice());
    crate::bytes::append_bytes(&mut out, ",\"humidity\":".as_bytes());
    let h = format_centi(humidity_centi);
    crate::bytes::append_bytes(&mut out, h.as_slice());
    crate::bytes::append_bytes(&mut out, "}".as_bytes());
    out
}

/// The head of the plain HTTP/1.0 POST that carries a report body of
/// `body_len` bytes.
pub open spec fn post_head_bytes(host: Seq<u8>, path: Seq<u8>, body_len: nat) -> Seq<u8> {
    "POST ".spec_bytes() + path + " HTTP/1.0\r\nHost: ".spec_bytes() + host
        + "\r\nContent-Type: application/json\r\nContent-Length: ".spec_bytes() + dec_digits(
        body_len,
    ) + "\r\n\r\n".spec_bytes()
}

/// Builds the POST request head, `Content-Length` included.
pub fn post_report_head(host: &[u8], path: &[u8], body_len: usize) -> (r: Vec<u8>)
    ensures
        r@ == post_head_bytes(host@, path@, body_len as nat),
{
    let mut out = crate::bytes::copy_bytes("POST ".as_bytes());
    crate::bytes::append_bytes(&mut out, path);
    crate::bytes::append_bytes(&mut out, " HTTP/1.0\r\nHost: ".as_bytes());
    crate::bytes::append_bytes(&mut out, host);
    crate::bytes::append_bytes(
        &mut out,
        "\r\nContent-Type: application/json\r\nContent-Length: ".as_bytes(),
    );
    push_decimal(&mut out, body_len as u64);
    crate::bytes::append_bytes(&mut out, "\r\n\r\n".as_bytes());
    out
}

/// The publisher's phases.
#[derive(Clone, Copy, PartialEq, Eq, Debug, Structural)]
pub enum PublisherPhase {
    /// Waiting for the station link and an address.
    AwaitingNetwork,
    /// Resolving the broker host.
    Resolving,
    /// Opening the TCP connection.
    Connecting,
    /// Performing the broker handshake.
    Handshaking,
    /// Reading the sensor and publishing, once a second.
    Publishing,
    /// A step failed; waiting out the fixed delay before starting over.
    BackingOff,
}

/// What the publisher observes.
pub enum PublisherEvent {
    /// Link up and address assigned.
    NetworkUp,
    /// The link or the address went away.
    NetworkLost,
    /// The broker address is known - literal or resolved.
    Resolved,
    /// No broker configured, or resolution failed.
    ResolveFailed,
    /// The TCP connection is open.
    Connected,
    /// The connect attempt failed or timed out.
    ConnectFailed,
    /// The broker accepted the session.
    HandshakeOk,
    /// The broker refused the session.
    HandshakeFailed,
    /// Both readings were published.
    PublishOk,
    /// A publish failed with a network error: the connection is gone.
    PublishNetworkError,
    /// A publish failed with a non-fatal broker error.
    PublishOtherError,
    /// The sensor skipped a cycle.
    SensorUnavailable,
    /// The back-off delay elapsed.
    BackoffElapsed,
}

/// The publisher's transition relation: every failure path returns to a
/// retry, never to a halt; only a network-class publish error tears the
/// connection down.
pub open spec fn spec_publisher_next(p: PublisherPhase, e: PublisherEvent) -> PublisherPhase {
    match (p, e) {
        (PublisherPhase::AwaitingNetwork, PublisherEvent::NetworkUp) => PublisherPhase::Resolving,
        (PublisherPhase::Resolving, PublisherEvent::Resolved) => PublisherPhase::Connecting,
        (PublisherPhase::Resolving, PublisherEvent::ResolveFailed) => PublisherPhase::BackingOff,
        (PublisherPhase::Connecting, PublisherEvent::Connected) => PublisherPhase::Handshaking,
        (PublisherPhase::Connecting, PublisherEvent::ConnectFailed) => PublisherPhase::BackingOff,
        (PublisherPhase::Handshaking, PublisherEvent::HandshakeOk) => PublisherPhase::Publishing,
        (PublisherPhase::Handshaking, PublisherEvent::HandshakeFailed) => PublisherPhase::BackingOff,
        (PublisherPhase::Publishing, PublisherEvent::PublishOk) => PublisherPhase::Publishing,
        (PublisherPhase::Publishing, PublisherEvent::PublishOtherError) => PublisherPhase::Publishing,
        (PublisherPhase::Publishing, PublisherEvent::SensorUnavailable) => PublisherPhase::Publishing,
        (
            PublisherPhase::Publishing,
            PublisherEvent::PublishNetworkError,
        ) => PublisherPhase::AwaitingNetwork,
        (PublisherPhase::Publishing, PublisherEvent::NetworkLost) => PublisherPhase::AwaitingNetwork,
        (PublisherPhase::BackingOff, PublisherEvent::BackoffElapsed) => PublisherPhase::AwaitingNetwork,
        (q, _) => q,
    }
}

/// Advances the publisher by one observed event.
pub fn publisher_next(p: PublisherPhase, e: &PublisherEvent) -> (q: PublisherPhase)
    ensures
        q == spec_publisher_next(p, *e),
{
    match (p, e) {
        (PublisherPhase::AwaitingNetwork, PublisherEvent::NetworkUp) => PublisherPhase::Resolving,
        (PublisherPhase::Resolving, PublisherEvent::Resolved) => PublisherPhase::Connecting,
        (PublisherPhase::Resolving, PublisherEvent::ResolveFailed) => PublisherPhase::BackingOff,
        (PublisherPhase::Connecting, PublisherEvent::Connected) => PublisherPhase::Handshaking,
        (PublisherPhase::Connecting, PublisherEvent::ConnectFailed) => PublisherPhase::BackingOff,
        (PublisherPhase::Handshaking, PublisherEvent::HandshakeOk) => PublisherPhase::Publishing,
        (PublisherPhase::Handshaking, PublisherEvent::HandshakeFailed) => PublisherPhase::BackingOff,
        (PublisherPhase::Publishing, PublisherEvent::PublishOk) => PublisherPhase::Publishing,
        (PublisherPhase::Publishing, PublisherEvent::PublishOtherError) => PublisherPhase::Publishing,
        (PublisherPhase::Publishing, PublisherEvent::SensorUnavailable) => PublisherPhase::Publishing,
        (
            PublisherPhase::Publishing,
            PublisherEvent::PublishNetworkError,
        ) => PublisherPhase::AwaitingNetwork,
        (PublisherPhase::Publishing, PublisherEvent::NetworkLost) => PublisherPhase::AwaitingNetwork,
        (PublisherPhase::BackingOff, PublisherEvent::BackoffElapsed) => PublisherPhase::AwaitingNetwork,
        (q, _) => q,
    }
}

/// Once the station network is up, one clean pass - resolve, connect,
/// handshake - has the publisher publishing: it starts within one retry
/// interval of the network coming up, with no step waiting on anything
/// but its own event.
pub proof fn lemma_publisher_startup(p: PublisherPhase)
    requires
        p is AwaitingNetwork,
    ensures
        ({
            let p1 = spec_publisher_next(p, PublisherEvent::NetworkUp);
            let p2 = spec_publisher_next(p1, PublisherEvent::Resolved);
            let p3 = spec_publisher_next(p2, PublisherEvent::Connected);
            let p4 = spec_publisher_next(p3, PublisherEvent::HandshakeOk);
            &&& p1 is Resolving
            &&& p2 is Connecting
            &&& p3 is Handshaking
            &&& p4 is Publishing
        }),
{
}

} // verus!
