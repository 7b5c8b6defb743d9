//! The credential hand-off: a single-slot rendezvous mailbox.
//!
//! The portal's form handler is the producer, the connection state machine
//! the consumer. The slot holds at most one credential set; a send into a
//! full slot is refused unchanged, so the sender must wait for the consumer
//! to drain the slot - back-pressure, never overwrite.

use vstd::prelude::*;

use crate::creds::WifiCredentials;

verus! {

/// A capacity-one mailbox for `WifiCredentials`.
pub struct CredentialSlot {
    pub pending: Option<WifiCredentials>,
}

impl CredentialSlot {
    /// A fresh, empty slot.
    pub fn new() -> (s: CredentialSlot)
        ensures
            s.pending is None,
    {
        CredentialSlot { pending: None }
    }

    /// Whether a credential set is in flight.
    pub fn is_full(&self) -> (r: bool)
        ensures
            r == (self.pending is Some),
    {
        match self.pending {
            Some(_) => true,
            None => false,
        }
    }

    /// Offers `c` to the slot. An empty slot takes it; a full slot refuses
    /// and keeps its value, so a value in flight is never dropped or
    /// overwritten - the sender blocks until the slot drains.
    pub fn try_send(&mut self, c: WifiCredentials) -> (accepted: bool)
        ensures
            accepted == (old(self).pending is None),
            accepted ==> (final(self).pending matches Some(p) && p.ssid@ == c.ssid@
                && p.password@ == c.password@),
            !accepted ==> final(self).pending == old(self).pending,
    {
        match self.pending {
            Some(_) => false,
            None => {
                self.pending = Some(c);
                true
            },
        }
    }

    /// Drains the slot: yields the value in flight, if any, and leaves the
    /// slot empty either way.
    pub fn try_receive(&mut self) -> (r: Option<WifiCredentials>)
        ensures
            final(self).pending is None,
            r == old(self).pending,
    {
        self.pending.take()
    }
}

} // verus!
