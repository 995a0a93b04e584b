//! Device identities and property addresses.
//!
//! A property address names one readable or writable attribute of a device or
//! stream. The platform's numeric codes for selectors and scopes are not held
//! here: the driver maps each variant to the code of its platform.

use vstd::prelude::*;

verus! {

/// Numeric handle of a hardware device, owned by the platform.
pub type AudioDeviceID = u32;

/// The attribute that an address selects.
#[derive(Clone, Copy, Debug, PartialEq, Eq, Structural)]
pub enum Selector {
    /// The default input device of the system.
    DefaultInputDevice,
    /// The default output device of the system.
    DefaultOutputDevice,
    /// The list of all devices of the system.
    Devices,
    /// The human-readable name of a device.
    DeviceName,
    /// The nominal sample rate of a device.
    NominalSampleRate,
    /// The list of nominal sample rate ranges that a device supports.
    AvailableNominalSampleRates,
    /// The physical format of a stream.
    PhysicalFormat,
    /// The list of physical formats that a stream supports.
    AvailablePhysicalFormats,
}

/// The section of a device or of an audio unit that an address or a setting
/// applies to.
#[derive(Clone, Copy, Debug, PartialEq, Eq, Structural)]
pub enum Scope {
    Global,
    Input,
    Output,
}

/// The element within a scope.
#[derive(Clone, Copy, Debug, PartialEq, Eq, Structural)]
pub enum Element {
    /// The master element of a device, and the output bus of an audio unit.
    Output,
    /// The input bus of an audio unit.
    Input,
}

/// The object that a property belongs to.
#[derive(Clone, Copy, Debug, PartialEq, Eq, Structural)]
pub enum AudioObject {
    /// The system as a whole.
    System,
    /// One device.
    Device(AudioDeviceID),
}

/// The key of a property: selector, scope and element. Equality is
/// structural.
#[derive(Clone, Copy, Debug, PartialEq, Eq, Structural)]
pub struct PropertyAddress {
    pub selector: Selector,
    pub scope: Scope,
    pub element: Element,
}

impl PropertyAddress {
    /// The address of `selector` in the global scope, master element.
    pub open spec fn global(selector: Selector) -> PropertyAddress {
        PropertyAddress { selector, scope: Scope::Global, element: Element::Output }
    }

    /// Builds the address of `selector` in the global scope, master element.
    pub fn new_global(selector: Selector) -> (address: PropertyAddress)
        ensures
            address == PropertyAddress::global(selector),
    {
        PropertyAddress { selector, scope: Scope::Global, element: Element::Output }
    }
}

} // verus!
