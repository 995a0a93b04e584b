//! Errors reported by the device layer and the mapping from platform status
//! codes.

use vstd::prelude::*;

verus! {

/// Status code returned by every platform call.
pub type OSStatus = i32;

/// The status with which the platform reports success.
pub const NO_ERROR: OSStatus = 0;

/// Failure of a device operation.
#[derive(Clone, Copy, Debug, PartialEq, Eq, Structural)]
pub enum Error {
    /// The requested rate is not among the discrete rates of the device, or
    /// the device did not confirm the requested setting before the deadline.
    UnsupportedSampleRate,
    /// A platform call reported a status other than success; the raw status
    /// is kept for diagnostics.
    Unknown(OSStatus),
}

/// What `Error::from_os_status` returns for `status`.
pub open spec fn status_result(status: OSStatus) -> Result<(), Error> {
    if status == NO_ERROR {
        Ok(())
    } else {
        Err(Error::Unknown(status))
    }
}

impl Error {
    /// Maps a platform status to a result: success for `NO_ERROR`, otherwise
    /// `Error::Unknown` carrying the status.
    pub fn from_os_status(status: OSStatus) -> (r: Result<(), Error>)
        ensures
            r == status_result(status),
    {
        if status == NO_ERROR {
            Ok(())
        } else {
            Err(Error::Unknown(status))
        }
    }

    /// A one-line description of the error.
    pub fn describe(&self) -> (text: &'static str)
        ensures
            text@ == self.description(),
    {
        match self {
            Error::UnsupportedSampleRate => "unsupported sample rate",
            Error::Unknown(_) => "platform call failed",
        }
    }

    /// The text that `describe` returns.
    pub open spec fn description(&self) -> Seq<char> {
        match self {
            Error::UnsupportedSampleRate => "unsupported sample rate"@,
            Error::Unknown(_) => "platform call failed"@,
        }
    }
}

} // verus!
