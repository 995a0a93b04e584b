//! The calls that the device layer asks of the platform, and the answers it
//! takes back.
//!
//! Nothing in this crate performs a call. A function that needs the platform
//! returns a `Request`; the driver performs it and hands the answer back as
//! the matching `Reply`.

use crate::address::{AudioObject, PropertyAddress, Selector};
use crate::error::OSStatus;
use crate::format::StreamFormat;
use crate::listener::Binding;
use crate::rate::SampleRate;
use vstd::prelude::*;

verus! {

/// The value of a device property that can be reconfigured.
#[derive(Clone, Copy, Debug, PartialEq, Eq, Structural)]
pub enum Setting {
    /// The nominal sample rate of the device.
    Rate(SampleRate),
    /// The physical format of the stream.
    Format(StreamFormat),
}

impl Setting {
    /// The address of the property that holds the setting.
    pub open spec fn address(self) -> PropertyAddress {
        match self {
            Setting::Rate(_) => PropertyAddress::global(Selector::NominalSampleRate),
            Setting::Format(_) => PropertyAddress::global(Selector::PhysicalFormat),
        }
    }

    /// Whether a device that reports `current` already has this setting, so
    /// that nothing needs to change: rates are the same number of whole Hz,
    /// formats are equal for reconfiguration. A value of the other kind never
    /// counts.
    pub open spec fn already_set(self, current: Setting) -> bool {
        match (self, current) {
            (Setting::Rate(wanted), Setting::Rate(found)) => found.hz() == wanted.hz(),
            (Setting::Format(wanted), Setting::Format(found)) => found.matches(wanted),
            _ => false,
        }
    }

    /// Whether `reported`, received after the change was requested, confirms
    /// this setting. Rates are compared in whole Hz at 64-bit width, formats
    /// as in `already_set`.
    pub open spec fn confirmed_by(self, reported: Setting) -> bool {
        match (self, reported) {
            (Setting::Rate(wanted), Setting::Rate(found)) => found.hz_wide() == wanted.hz_wide(),
            (Setting::Format(wanted), Setting::Format(found)) => found.matches(wanted),
            _ => false,
        }
    }

    /// Computes the address of the property that holds the setting.
    pub fn property_address(&self) -> (address: PropertyAddress)
        ensures
            address == self.address(),
    {
        match self {
            Setting::Rate(_) => PropertyAddress::new_global(Selector::NominalSampleRate),
            Setting::Format(_) => PropertyAddress::new_global(Selector::PhysicalFormat),
        }
    }

    /// Decides whether a device that reports `current` already has this
    /// setting.
    pub fn is_already_set(&self, current: &Setting) -> (same: bool)
        ensures
            same == self.already_set(*current),
    {
        match (self, current) {
            (Setting::Rate(wanted), Setting::Rate(found)) => found.same_hz(wanted),
            (Setting::Format(wanted), Setting::Format(found)) => crate::format::formats_equal(
                found,
                wanted,
            ),
            _ => false,
        }
    }

    /// Decides whether `reported` confirms this setting.
    pub fn is_confirmed_by(&self, reported: &Setting) -> (confirmed: bool)
        ensures
            confirmed == self.confirmed_by(*reported),
    {
        match (self, reported) {
            (Setting::Rate(wanted), Setting::Rate(found)) => found.same_hz_wide(wanted),
            (Setting::Format(wanted), Setting::Format(found)) => crate::format::formats_equal(
                found,
                wanted,
            ),
            _ => false,
        }
    }
}

/// A call for the driver to perform.
#[derive(Clone, Copy, Debug, PartialEq, Eq, Structural)]
pub enum Request {
    /// Read the value of a property of fixed size.
    Read { object: AudioObject, address: PropertyAddress },
    /// Ask for the size in bytes of a list property.
    ReadSize { object: AudioObject, address: PropertyAddress },
    /// Read a list property into a buffer of exactly `bytes` bytes.
    ReadList { object: AudioObject, address: PropertyAddress, bytes: u32 },
    /// Register a forwarding listener for the property.
    AddListener { binding: Binding },
    /// Write `value` to the property.
    Write { object: AudioObject, address: PropertyAddress, value: Setting },
    /// Wait for the listener to deliver a value, for at most `timeout_ns`
    /// nanoseconds.
    Receive { timeout_ns: u64 },
    /// Remove the listener that was registered.
    RemoveListener { binding: Binding },
}

/// The answer of the platform to a request. Times are readings, in
/// nanoseconds, of a clock that never runs backwards.
#[derive(Debug)]
pub enum Reply {
    /// Answer to `Read`: the status and the value that was found.
    Value { status: OSStatus, value: Setting },
    /// Answer to `ReadSize`: the status and the size in bytes.
    Size { status: OSStatus, bytes: u32 },
    /// Answer to `ReadList`: the status and the buffer that was filled.
    List { status: OSStatus, data: Vec<u8> },
    /// Answer to `AddListener`.
    ListenerAdded { status: OSStatus },
    /// Answer to `Write`: the status and the time at which the call returned.
    Written { status: OSStatus, now_ns: u64 },
    /// Answer to `Receive`: the value that the listener delivered, if one
    /// came in time, and the time at which the wait ended.
    Received { delivered: Option<Setting>, now_ns: u64 },
    /// Answer to `RemoveListener`.
    ListenerRemoved { status: OSStatus },
}

} // verus!
