//! Host-side core of an audio device layer: device enumeration, stream format
//! comparison, change listeners and the request / confirm / timeout protocol
//! that reconfigures a hardware device.
//!
//! The crate performs no platform calls. Every function takes what the
//! platform reported as plain values and returns what to do next, so the
//! decisions can be stated and proved while a thin driver performs the calls.

pub mod error;
pub mod rate;
pub mod address;
pub mod format;
pub mod listener;
pub mod range;
pub mod layout;
pub mod platform;
pub mod reconfigure;
pub mod device;
pub mod name;
