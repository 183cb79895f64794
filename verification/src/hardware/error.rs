//! Failures of a camera session.

use crate::capture::error::{CaptureError, CaptureFault};
use crate::encoding::EncodingError;
use crate::resources::resource_folder::ResourceError;
use crate::text::{debug_text, labelled};
use vstd::prelude::*;
use vstd::string::StringExecFns;

verus! {

/// Why a camera operation failed.
#[derive(Debug, Clone)]
pub enum HardwareError {
    NotImplemented,
    /// The backend is exhausted or the device is gone.
    DeviceNoLongerAvailable(String),
    /// The bytes delivered do not make a frame.
    FailedToEncodeFrame(String),
    /// A configuration value is malformed.
    InvalidSettings(String),
    /// The backend could not be opened or negotiated.
    DeviceFailed(String),
    /// A file could not be read.
    IoError(String),
    /// The device offers no usable video stream or decoder.
    MissingCapability(String),
    /// The decoded picture does not have the expected size.
    InvalidBuffer(String),
    /// The session's lifecycle does not allow the operation.
    NotReady,
}

/// The kind of a [`HardwareError`], without its message.
#[derive(Debug, Clone, Copy, PartialEq, Eq, Structural)]
pub enum HardwareFault {
    NotImplemented,
    DeviceNoLongerAvailable,
    FailedToEncodeFrame,
    InvalidSettings,
    DeviceFailed,
    IoError,
    MissingCapability,
    InvalidBuffer,
    NotReady,
}

/// The kind of camera failure that a capture failure amounts to: a missing
/// stream or decoder is a missing capability, a lost device is a device no
/// longer available, a size mismatch and a lifecycle error keep their kind,
/// and anything else means that the device failed.
pub open spec fn hardware_fault(kind: CaptureFault) -> HardwareFault {
    match kind {
        CaptureFault::MissingStream => HardwareFault::MissingCapability,
        CaptureFault::MissingCodec => HardwareFault::MissingCapability,
        CaptureFault::InvalidBuffer => HardwareFault::InvalidBuffer,
        CaptureFault::NotReady => HardwareFault::NotReady,
        CaptureFault::DeviceLost => HardwareFault::DeviceNoLongerAvailable,
        _ => HardwareFault::DeviceFailed,
    }
}

/// The message of the camera failure that a capture failure amounts to: the
/// printed capture failure, and nothing for a lifecycle error.
pub open spec fn hardware_message(kind: CaptureFault, message: Seq<char>) -> Seq<char> {
    if kind == CaptureFault::NotReady {
        Seq::empty()
    } else {
        CaptureError::fault_text(kind, message)
    }
}

impl HardwareError {
    /// The kind of this error.
    pub open spec fn kind(&self) -> HardwareFault {
        match self {
            HardwareError::NotImplemented => HardwareFault::NotImplemented,
            HardwareError::DeviceNoLongerAvailable(_) => HardwareFault::DeviceNoLongerAvailable,
            HardwareError::FailedToEncodeFrame(_) => HardwareFault::FailedToEncodeFrame,
            HardwareError::InvalidSettings(_) => HardwareFault::InvalidSettings,
            HardwareError::DeviceFailed(_) => HardwareFault::DeviceFailed,
            HardwareError::IoError(_) => HardwareFault::IoError,
            HardwareError::MissingCapability(_) => HardwareFault::MissingCapability,
            HardwareError::InvalidBuffer(_) => HardwareFault::InvalidBuffer,
            HardwareError::NotReady => HardwareFault::NotReady,
        }
    }

    /// The message this error carries; empty where the kind carries none.
    pub open spec fn message(&self) -> Seq<char> {
        match self {
            HardwareError::DeviceNoLongerAvailable(m) => m@,
            HardwareError::FailedToEncodeFrame(m) => m@,
            HardwareError::InvalidSettings(m) => m@,
            HardwareError::DeviceFailed(m) => m@,
            HardwareError::IoError(m) => m@,
            HardwareError::MissingCapability(m) => m@,
            HardwareError::InvalidBuffer(m) => m@,
            _ => Seq::empty(),
        }
    }

    /// The name of a kind.
    pub open spec fn kind_name(kind: HardwareFault) -> Seq<char> {
        match kind {
            HardwareFault::NotImplemented => "NotImplemented"@,
            HardwareFault::DeviceNoLongerAvailable => "DeviceNoLongerAvailable"@,
            HardwareFault::FailedToEncodeFrame => "FailedToEncodeFrame"@,
            HardwareFault::InvalidSettings => "InvalidSettings"@,
            HardwareFault::DeviceFailed => "DeviceFailed"@,
            HardwareFault::IoError => "IoError"@,
            HardwareFault::MissingCapability => "MissingCapability"@,
            HardwareFault::InvalidBuffer => "InvalidBuffer"@,
            HardwareFault::NotReady => "NotReady"@,
        }
    }

    /// The printed form of the error: its name, and the quoted message in
    /// parentheses where the kind carries one.
    pub open spec fn text(&self) -> Seq<char> {
        if self.kind() == HardwareFault::NotImplemented || self.kind() == HardwareFault::NotReady {
            Self::kind_name(self.kind())
        } else {
            Self::kind_name(self.kind()) + "("@ + debug_text(self.message()) + ")"@
        }
    }

    /// Prints the error.
    pub fn to_text(&self) -> (r: String)
        ensures
            r@ == self.text(),
    {
        match self {
            HardwareError::NotImplemented => String::from_str("NotImplemented"),
            HardwareError::NotReady => String::from_str("NotReady"),
            HardwareError::DeviceNoLongerAvailable(m) => labelled(
                "DeviceNoLongerAvailable",
                m.as_str(),
            ),
            HardwareError::FailedToEncodeFrame(m) => labelled("FailedToEncodeFrame", m.as_str()),
            HardwareError::InvalidSettings(m) => labelled("InvalidSettings", m.as_str()),
            HardwareError::DeviceFailed(m) => labelled("DeviceFailed", m.as_str()),
            HardwareError::IoError(m) => labelled("IoError", m.as_str()),
            HardwareError::MissingCapability(m) => labelled("MissingCapability", m.as_str()),
            HardwareError::InvalidBuffer(m) => labelled("InvalidBuffer", m.as_str()),
        }
    }

    /// The camera failure that a capture failure amounts to.
    pub fn from_capture(err: &CaptureError) -> (r: HardwareError)
        ensures
            r.kind() == hardware_fault(err.kind()),
            r.message() == hardware_message(err.kind(), err.message()),
    {
        match err {
            CaptureError::MissingStream(_) => HardwareError::MissingCapability(err.to_text()),
            CaptureError::MissingCodec(_) => HardwareError::MissingCapability(err.to_text()),
            CaptureError::InvalidBuffer(_) => HardwareError::InvalidBuffer(err.to_text()),
            CaptureError::NotReady => HardwareError::NotReady,
            CaptureError::DeviceLost(_) => HardwareError::DeviceNoLongerAvailable(err.to_text()),
            _ => HardwareError::DeviceFailed(err.to_text()),
        }
    }

    /// A folder that cannot be used means invalid settings.
    pub fn from_resource(err: &ResourceError) -> (r: HardwareError)
        ensures
            r.kind() == HardwareFault::InvalidSettings,
            r.message() == err.text(),
    {
        HardwareError::InvalidSettings(err.to_text())
    }

    /// Bytes that make no frame mean a frame that failed to encode.
    pub fn from_encoding(err: &EncodingError) -> (r: HardwareError)
        ensures
            r.kind() == HardwareFault::FailedToEncodeFrame,
            r.message() == err.text(),
    {
        HardwareError::FailedToEncodeFrame(err.to_text())
    }
}

} // verus!
