//! Failures of the native capture session.

use crate::text::{debug_text, decimal_i128, decimal_text, labelled};
use vstd::prelude::*;
use vstd::string::StringExecFns;

verus! {

/// Why a capture operation failed.
#[derive(Debug, Clone)]
pub enum CaptureError {
    NotImplemented,
    /// The decoding library knows no input backend of the configured name.
    InvalidDriver,
    /// The session is not in a state that allows the operation.
    NotReady,
    /// The decoded picture does not have the size of the destination buffer.
    InvalidBuffer(String),
    /// The device offers no video stream.
    MissingStream(String),
    /// No decoder exists for the device's video stream.
    MissingCodec(String),
    /// A native call reported an error code.
    NativeError(String),
    /// A native handle that the operation needs is missing.
    NullPointer(String),
    /// The device stopped delivering data.
    DeviceLost(String),
}

/// The kind of a [`CaptureError`], without its message.
#[derive(Debug, Clone, Copy, PartialEq, Eq, Structural)]
pub enum CaptureFault {
    NotImplemented,
    InvalidDriver,
    NotReady,
    InvalidBuffer,
    MissingStream,
    MissingCodec,
    NativeError,
    NullPointer,
    DeviceLost,
}

/// The message of a native failure: the place, then the library's detail for
/// the code, or a note that no detail could be had.
pub open spec fn native_message(place: Seq<char>, code: i32, detail: Option<String>) -> Seq<char> {
    match detail {
        Some(text) => place + ": "@ + text@,
        None => place + ": Failed to get error detail for error code "@ + decimal_text(code as int),
    }
}

impl CaptureError {
    /// The kind of this error.
    pub open spec fn kind(&self) -> CaptureFault {
        match self {
            CaptureError::NotImplemented => CaptureFault::NotImplemented,
            CaptureError::InvalidDriver => CaptureFault::InvalidDriver,
            CaptureError::NotReady => CaptureFault::NotReady,
            CaptureError::InvalidBuffer(_) => CaptureFault::InvalidBuffer,
            CaptureError::MissingStream(_) => CaptureFault::MissingStream,
            CaptureError::MissingCodec(_) => CaptureFault::MissingCodec,
            CaptureError::NativeError(_) => CaptureFault::NativeError,
            CaptureError::NullPointer(_) => CaptureFault::NullPointer,
            CaptureError::DeviceLost(_) => CaptureFault::DeviceLost,
        }
    }

    /// The message this error carries; empty where the kind carries none.
    pub open spec fn message(&self) -> Seq<char> {
        match self {
            CaptureError::InvalidBuffer(m) => m@,
            CaptureError::MissingStream(m) => m@,
            CaptureError::MissingCodec(m) => m@,
            CaptureError::NativeError(m) => m@,
            CaptureError::NullPointer(m) => m@,
            CaptureError::DeviceLost(m) => m@,
            _ => Seq::empty(),
        }
    }

    /// The name of a kind, as it is written in the source.
    pub open spec fn kind_name(kind: CaptureFault) -> Seq<char> {
        match kind {
            CaptureFault::NotImplemented => "NotImplemented"@,
            CaptureFault::InvalidDriver => "InvalidDriver"@,
            CaptureFault::NotReady => "NotReady"@,
            CaptureFault::InvalidBuffer => "InvalidBuffer"@,
            CaptureFault::MissingStream => "MissingStream"@,
            CaptureFault::MissingCodec => "MissingCodec"@,
            CaptureFault::NativeError => "NativeError"@,
            CaptureFault::NullPointer => "NullPointer"@,
            CaptureFault::DeviceLost => "DeviceLost"@,
        }
    }

    /// Whether a kind carries a message.
    pub open spec fn has_message(kind: CaptureFault) -> bool {
        !(kind == CaptureFault::NotImplemented || kind == CaptureFault::InvalidDriver || kind
            == CaptureFault::NotReady)
    }

    /// The printed form of an error of a kind with a message: the kind's name,
    /// followed, where the kind carries a message, by the quoted message in
    /// parentheses.
    pub open spec fn fault_text(kind: CaptureFault, message: Seq<char>) -> Seq<char> {
        if Self::has_message(kind) {
            Self::kind_name(kind) + "("@ + debug_text(message) + ")"@
        } else {
            Self::kind_name(kind)
        }
    }

    /// The printed form of this error.
    pub open spec fn text(&self) -> Seq<char> {
        Self::fault_text(self.kind(), self.message())
    }

    /// Prints the error as its kind and quoted message.
    pub fn to_text(&self) -> (r: String)
        ensures
            r@ == self.text(),
    {
        match self {
            CaptureError::NotImplemented => String::from_str("NotImplemented"),
            CaptureError::InvalidDriver => String::from_str("InvalidDriver"),
            CaptureError::NotReady => String::from_str("NotReady"),
            CaptureError::InvalidBuffer(m) => labelled("InvalidBuffer", m.as_str()),
            CaptureError::MissingStream(m) => labelled("MissingStream", m.as_str()),
            CaptureError::MissingCodec(m) => labelled("MissingCodec", m.as_str()),
            CaptureError::NativeError(m) => labelled("NativeError", m.as_str()),
            CaptureError::NullPointer(m) => labelled("NullPointer", m.as_str()),
            CaptureError::DeviceLost(m) => labelled("DeviceLost", m.as_str()),
        }
    }
}

/// The error for a native call that reported `error_code` at `context`.
/// `detail` is the library's own description of the code, if it gave one.
pub fn as_error(error_code: i32, detail: Option<String>, context: &str) -> (r: CaptureError)
    ensures
        r.kind() == CaptureFault::NativeError,
        r.message() == native_message(context@, error_code, detail),
{
    CaptureError::NativeError(native_text(error_code, detail, context))
}

/// The message of [`as_error`].
pub fn native_text(error_code: i32, detail: Option<String>, context: &str) -> (r: String)
    ensures
        r@ == native_message(context@, error_code, detail),
{
    let mut text = String::from_str(context);
    match detail {
        Some(v) => {
            text.append(": ");
            text.append(v.as_str());
        },
        None => {
            text.append(": Failed to get error detail for error code ");
            text.append(decimal_i128(error_code as i128).as_str());
        },
    }
    text
}

} // verus!
