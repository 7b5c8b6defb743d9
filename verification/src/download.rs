//! The firmware fetch over HTTP/1.0.
//!
//! The update task sends a minimal `GET /firmware.bin` request, reads the
//! response until the blank line ending the headers, and treats everything
//! after it as firmware payload - including the bytes that arrived in the
//! same read as the header end, which must not be discarded. The body ends
//! when the peer closes the connection.

use vstd::prelude::*;
use vstd::string::StringSliceAdditionalSpecFns;

verus! {

/// The update server's TCP port.
pub const UPDATE_PORT: u16 = 8080;

/// The most response-header bytes the update task accumulates before
/// giving the attempt up.
pub const HEADER_BUFFER_MAX: usize = 1024;

/// The size of one streamed read from the socket, in bytes: flash writes
/// are chunked to this so no write stalls the cooperative scheduler for
/// long.
pub const STREAM_CHUNK_BYTES: usize = 4096;

/// The blank line ending an HTTP header block.
pub open spec fn header_terminator() -> Seq<u8> {
    seq!['\r' as u8, '\n' as u8, '\r' as u8, '\n' as u8]
}

/// Whether the header terminator stands at index `i` of `s`.
pub open spec fn header_end_at(s: Seq<u8>, i: int) -> bool {
    &&& 0 <= i
    &&& i + 4 <= s.len()
    &&& s.subrange(i, i + 4) == header_terminator()
}

/// Finds the first position of the header terminator, if any.
pub fn find_header_end(buf: &[u8]) -> (r: Option<usize>)
    ensures
        match r {
            Some(i) => {
                &&& header_end_at(buf@, i as int)
                &&& forall|j: int| 0 <= j < i ==> !header_end_at(buf@, j)
            },
            None => forall|j: int| !header_end_at(buf@, j),
        },
{
    if buf.len() < 4 {
        return None;
    }
    let mut i: usize = 0;
    while i <= buf.len() - 4
        invariant
            buf@.len() >= 4,
            i <= buf@.len() - 3,
            forall|j: int| 0 <= j < i ==> !header_end_at(buf@, j),
        decreases buf.len() - i,
    {
        let hit = buf[i] == ('\r' as u8) && buf[i + 1] == ('\n' as u8) && buf[i + 2] == (
        '\r' as u8) && buf[i + 3] == ('\n' as u8);
        proof {
            if hit {
                assert(buf@.subrange(i as int, i + 4) =~= header_terminator());
            } else {
                let sub = buf@.subrange(i as int, i + 4);
                if buf@[i as int] != ('\r' as u8) {
                    assert(sub[0] != header_terminator()[0]);
                } else if buf@[i + 1] != ('\n' as u8) {
                    assert(sub[1] != header_terminator()[1]);
                } else if buf@[i + 2] != ('\r' as u8) {
                    assert(sub[2] != header_terminator()[2]);
                } else {
                    assert(sub[3] != header_terminator()[3]);
                }
            }
        }
        if hit {
            return Some(i);
        }
        i = i + 1;
    }
    proof {
        assert forall|j: int| !header_end_at(buf@, j) by {
            if 0 <= j && j + 4 <= buf@.len() {
                assert(j < i);
            }
        }
    }
    None
}

/// Splits an accumulated response prefix at the end of its headers:
/// `Some((end, payload))` gives the terminator position and a copy of
/// every byte past the blank line - payload already received, kept, not
/// discarded. `None` means the headers have not ended yet.
pub fn split_at_header_end(buf: &[u8]) -> (r: Option<(usize, Vec<u8>)>)
    ensures
        match r {
            Some(p) => {
                &&& header_end_at(buf@, p.0 as int)
                &&& forall|j: int| 0 <= j < p.0 ==> !header_end_at(buf@, j)
                &&& p.1@ == buf@.skip(p.0 + 4)
            },
            None => forall|j: int| !header_end_at(buf@, j),
        },
{
    match find_header_end(buf) {
        None => None,
        Some(end) => {
            let n = buf.len();
            let payload = crate::bytes::copy_range(buf, end + 4, n);
            proof {
                assert(buf@.subrange(end + 4, buf@.len() as int) =~= buf@.skip(end + 4));
            }
            Some((end, payload))
        },
    }
}

/// The request the update task sends for the image.
pub open spec fn firmware_request_bytes(host: Seq<u8>) -> Seq<u8> {
    "GET /firmware.bin HTTP/1.0\r\nHost: ".spec_bytes() + host + "\r\n\r\n".spec_bytes()
}

/// Builds the `GET /firmware.bin` request with its `Host` header.
pub fn firmware_request(host: &[u8]) -> (r: Vec<u8>)
    ensures
        r@ == firmware_request_bytes(host@),
{
    let head: &str = "GET /firmware.bin HTTP/1.0\r\nHost: ";
    let tail: &str = "\r\n\r\n";
    let mut out = crate::bytes::copy_bytes(head.as_bytes());
    crate::bytes::append_bytes(&mut out, host);
    crate::bytes::append_bytes(&mut out, tail.as_bytes());
    out
}

/// The update task's phases around a fetch attempt.
#[derive(Clone, Copy, PartialEq, Eq, Debug, Structural)]
pub enum UpdaterPhase {
    /// Waiting for the station network to come up and get an address.
    AwaitingNetwork,
    /// Network ready; blocked on the button-press signal.
    AwaitingPress,
    /// A fetch attempt is running.
    Downloading,
    /// An image was flashed and activated; awaiting manual reset.
    Finished,
}

/// What the update task observes.
pub enum UpdaterEvent {
    /// The station stack reports an address.
    NetworkReady,
    /// The press signal fired.
    Pressed,
    /// The attempt aborted: connect, header, stream or flash failure,
    /// or no update host configured. Nothing was activated.
    DownloadFailed,
    /// The stream completed and the partition was activated.
    DownloadSucceeded,
}

/// The update task's transition relation: a failed attempt returns to
/// waiting for the next press; a successful one ends the task.
pub open spec fn spec_updater_next(p: UpdaterPhase, e: UpdaterEvent) -> UpdaterPhase {
    match (p, e) {
        (UpdaterPhase::AwaitingNetwork, UpdaterEvent::NetworkReady) => UpdaterPhase::AwaitingPress,
        (UpdaterPhase::AwaitingPress, UpdaterEvent::Pressed) => UpdaterPhase::Downloading,
        (UpdaterPhase::Downloading, UpdaterEvent::DownloadFailed) => UpdaterPhase::AwaitingPress,
        (UpdaterPhase::Downloading, UpdaterEvent::DownloadSucceeded) => UpdaterPhase::Finished,
        (q, _) => q,
    }
}

/// Advances the update task by one observed event.
pub fn updater_next(p: UpdaterPhase, e: &UpdaterEvent) -> (q: UpdaterPhase)
    ensures
        q == spec_updater_next(p, *e),
{
    match (p, e) {
        (UpdaterPhase::AwaitingNetwork, UpdaterEvent::NetworkReady) => UpdaterPhase::AwaitingPress,
        (UpdaterPhase::AwaitingPress, UpdaterEvent::Pressed) => UpdaterPhase::Downloading,
        (UpdaterPhase::Downloading, UpdaterEvent::DownloadFailed) => UpdaterPhase::AwaitingPress,
        (UpdaterPhase::Downloading, UpdaterEvent::DownloadSucceeded) => UpdaterPhase::Finished,
        (q, _) => q,
    }
}

} // verus!
