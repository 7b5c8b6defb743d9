//! Verified core of a WiFi provisioning and firmware-update orchestrator for
//! a headless embedded device.
//!
//! The library holds the decision logic of the device: the captive-portal
//! request routing and form decoding, the single-slot credential hand-off,
//! the connection state machine, the debounced button monitor, the telemetry
//! publisher's formatting and retry schedule, and the streaming firmware
//! update with its partition bookkeeping. The surrounding runtime - radio
//! driver, network stacks, sockets, timers, flash - performs the actions
//! these decisions call for and feeds the observed events back in.

pub mod button;
pub mod bytes;
pub mod channel;
pub mod creds;
pub mod download;
pub mod form;
pub mod json;
pub mod net;
pub mod ota;
pub mod percent;
pub mod portal;
pub mod signal;
pub mod stress;
pub mod telemetry;
pub mod wifi;
