//! WiFi credentials collected by the provisioning portal.
//!
//! The station credentials are byte strings with fixed capacity bounds:
//! an SSID of 1 to 32 bytes and a password of at most 64 bytes. The portal
//! form handler is the only producer; the connection state machine is the
//! only consumer.

use vstd::prelude::*;

verus! {

/// Longest SSID the radio accepts, in bytes.
pub const SSID_MAX: usize = 32;

/// Longest password the radio accepts, in bytes.
pub const PASSWORD_MAX: usize = 64;

/// One set of station credentials, as submitted through the portal form.
pub struct WifiCredentials {
    pub ssid: Vec<u8>,
    pub password: Vec<u8>,
}

impl WifiCredentials {
    /// The capacity bounds of the radio configuration, plus the one
    /// validation the portal performs: a non-empty SSID.
    pub open spec fn well_formed(self) -> bool {
        &&& 1 <= self.ssid@.len() <= SSID_MAX
        &&& self.password@.len() <= PASSWORD_MAX
    }

    /// Builds a credential set after checking the bounds.
    pub fn new(ssid: Vec<u8>, password: Vec<u8>) -> (r: Option<WifiCredentials>)
        ensures
            match r {
                Some(c) => {
                    &&& c.well_formed()
                    &&& c.ssid@ == ssid@
                    &&& c.password@ == password@
                },
                None => !(WifiCredentials { ssid, password }).well_formed(),
            },
    {
        if 1 <= ssid.len() && ssid.len() <= SSID_MAX && password.len() <= PASSWORD_MAX {
            Some(WifiCredentials { ssid, password })
        } else {
            None
        }
    }

    /// Copies the credential set; the radio configuration and the portal
    /// confirmation page each need their own.
    pub fn duplicate(&self) -> (r: WifiCredentials)
        ensures
            r.ssid@ == self.ssid@,
            r.password@ == self.password@,
    {
        WifiCredentials {
            ssid: crate::bytes::copy_bytes(self.ssid.as_slice()),
            password: crate::bytes::copy_bytes(self.password.as_slice()),
        }
    }
}

} // verus!
