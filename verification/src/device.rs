//! Device enumeration: the default device, the list of devices, the formats
//! that a device supports, and the settings that bind an audio unit to a
//! device.
//!
//! Each lookup comes in two parts: a function that names the call to make,
//! and a function that turns the answer of the platform into the result.

use crate::address::{AudioDeviceID, AudioObject, Element, PropertyAddress, Scope, Selector};
use crate::error::{Error, OSStatus, NO_ERROR};
use crate::format::StreamFormat;
use crate::layout::{decode_device_ids, decode_formats, device_ids_of, formats_of};
use crate::platform::Request;
use vstd::prelude::*;

verus! {

/// The read that finds the default input device, with `input`, or the
/// default output device, without.
pub open spec fn default_device_read(input: bool) -> Request {
    Request::Read {
        object: AudioObject::System,
        address: PropertyAddress::global(
            if input {
                Selector::DefaultInputDevice
            } else {
                Selector::DefaultOutputDevice
            },
        ),
    }
}

/// Names the read that finds the default input or output device.
pub fn default_device_query(input: bool) -> (request: Request)
    ensures
        request == default_device_read(input),
{
    let selector = if input {
        Selector::DefaultInputDevice
    } else {
        Selector::DefaultOutputDevice
    };
    Request::Read { object: AudioObject::System, address: PropertyAddress::new_global(selector) }
}

/// The default device, from the answer to `default_device_query`: the device
/// that was read, or nothing if the platform reported anything but success.
/// Why there is no default device is not told.
pub fn get_default_device_id(status: OSStatus, device_id: AudioDeviceID) -> (found: Option<
    AudioDeviceID,
>)
    ensures
        found == if status == NO_ERROR {
            Some(device_id)
        } else {
            None::<AudioDeviceID>
        },
{
    if status != NO_ERROR {
        return None;
    }
    Some(device_id)
}

/// Names the call that asks for the size of a list property.
pub fn list_size_query(object: AudioObject, selector: Selector) -> (request: Request)
    ensures
        request == (Request::ReadSize { object, address: PropertyAddress::global(selector) }),
{
    Request::ReadSize { object, address: PropertyAddress::new_global(selector) }
}

/// The second call of a list lookup, from the answer to the first: the read
/// of the list into a buffer of exactly the size that the platform reported,
/// or the error if it reported anything but success.
pub fn list_data_query(object: AudioObject, selector: Selector, status: OSStatus, bytes: u32) -> (next:
    Result<Request, Error>)
    ensures
        next == if status == NO_ERROR {
            Ok::<Request, Error>(
                Request::ReadList { object, address: PropertyAddress::global(selector), bytes },
            )
        } else {
            Err::<Request, Error>(Error::Unknown(status))
        },
{
    match Error::from_os_status(status) {
        Err(e) => Err(e),
        Ok(()) => Ok(
            Request::ReadList { object, address: PropertyAddress::new_global(selector), bytes },
        ),
    }
}

/// The ids of all devices, from the answer to the read of the device list:
/// the ids that the buffer holds, as many as there are whole records in it,
/// or the error if the platform reported anything but success.
pub fn get_audio_device_ids(status: OSStatus, data: &[u8]) -> (ids: Result<
    Vec<AudioDeviceID>,
    Error,
>)
    ensures
        match ids {
            Ok(list) => status == NO_ERROR && list@ == device_ids_of(data@),
            Err(e) => status != NO_ERROR && e == Error::Unknown(status),
        },
{
    match Error::from_os_status(status) {
        Err(e) => Err(e),
        Ok(()) => Ok(decode_device_ids(data)),
    }
}

/// The physical formats that a device supports, from the answer to the read
/// of the list of formats: the descriptors that the buffer holds, or the
/// error if the platform reported anything but success.
pub fn get_supported_stream_formats(status: OSStatus, data: &[u8]) -> (formats: Result<
    Vec<StreamFormat>,
    Error,
>)
    ensures
        match formats {
            Ok(list) => status == NO_ERROR && list@ == formats_of(data@),
            Err(e) => status != NO_ERROR && e == Error::Unknown(status),
        },
{
    match Error::from_os_status(status) {
        Err(e) => Err(e),
        Ok(()) => Ok(decode_formats(data)),
    }
}

/// A property of an audio unit that binds it to a device.
#[derive(Clone, Copy, Debug, PartialEq, Eq, Structural)]
pub enum UnitProperty {
    /// Whether a bus of the unit takes part in input or output.
    EnableIO,
    /// The device that the unit runs on.
    CurrentDevice,
}

/// One property of an audio unit to set.
#[derive(Clone, Copy, Debug, PartialEq, Eq, Structural)]
pub struct UnitSetting {
    pub property: UnitProperty,
    pub scope: Scope,
    pub element: Element,
    pub value: u32,
}

/// The settings that bind a fresh audio unit to `device_id`, in the order in
/// which they are made. A unit for input has input enabled on its input bus
/// and output disabled on its output bus first; every unit is then given the
/// device.
pub open spec fn unit_settings(device_id: AudioDeviceID, input: bool) -> Seq<UnitSetting> {
    let device = UnitSetting {
        property: UnitProperty::CurrentDevice,
        scope: Scope::Global,
        element: Element::Output,
        value: device_id,
    };
    if input {
        seq![
            UnitSetting {
                property: UnitProperty::EnableIO,
                scope: Scope::Input,
                element: Element::Input,
                value: 1,
            },
            UnitSetting {
                property: UnitProperty::EnableIO,
                scope: Scope::Output,
                element: Element::Output,
                value: 0,
            },
            device,
        ]
    } else {
        seq![device]
    }
}

/// Lists the settings that bind a fresh audio unit to `device_id`. The driver
/// makes them in order and stops at the first that fails.
pub fn audio_unit_from_device_id(device_id: AudioDeviceID, input: bool) -> (settings: Vec<
    UnitSetting,
>)
    ensures
        settings@ == unit_settings(device_id, input),
{
    let mut settings: Vec<UnitSetting> = Vec::new();
    if input {
        settings.push(
            UnitSetting {
                property: UnitProperty::EnableIO,
                scope: Scope::Input,
                element: Element::Input,
                value: 1,
            },
        );
        settings.push(
            UnitSetting {
                property: UnitProperty::EnableIO,
                scope: Scope::Output,
                element: Element::Output,
                value: 0,
            },
        );
    }
    settings.push(
        UnitSetting {
            property: UnitProperty::CurrentDevice,
            scope: Scope::Global,
            element: Element::Output,
            value: device_id,
        },
    );
    assert(settings@ =~= unit_settings(device_id, input));
    settings
}

} // verus!
