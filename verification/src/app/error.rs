//! Failures of a run.

use crate::hardware::error::HardwareError;
use crate::resources::lock_file::LockError;
use crate::resources::resource_folder::ResourceError;
use crate::resources::time_probe::TimeProbeError;
use crate::text::{debug_text, labelled};
use vstd::prelude::*;
use vstd::string::StringExecFns;

verus! {

/// Why a run failed.
#[derive(Debug, Clone)]
pub enum AppError {
    /// The log could not be set up.
    LogInitFailed(String),
    /// A folder cannot be used.
    InvalidResource(String),
    /// A frame could not be stored.
    OutputError(String),
    /// The camera failed.
    DeviceFailed(String),
    /// The marker file could not be written.
    LockFailed(String),
    /// The network time lookup failed.
    NetworkFailed(String),
}

/// The kind of an [`AppError`], without its message.
#[derive(Debug, Clone, Copy, PartialEq, Eq, Structural)]
pub enum AppFault {
    LogInitFailed,
    InvalidResource,
    OutputError,
    DeviceFailed,
    LockFailed,
    NetworkFailed,
}

impl AppError {
    /// The kind of this error.
    pub open spec fn kind(&self) -> AppFault {
        match self {
            AppError::LogInitFailed(_) => AppFault::LogInitFailed,
            AppError::InvalidResource(_) => AppFault::InvalidResource,
            AppError::OutputError(_) => AppFault::OutputError,
            AppError::DeviceFailed(_) => AppFault::DeviceFailed,
            AppError::LockFailed(_) => AppFault::LockFailed,
            AppError::NetworkFailed(_) => AppFault::NetworkFailed,
        }
    }

    /// The message of this error.
    pub open spec fn message(&self) -> Seq<char> {
        match self {
            AppError::LogInitFailed(m) => m@,
            AppError::InvalidResource(m) => m@,
            AppError::OutputError(m) => m@,
            AppError::DeviceFailed(m) => m@,
            AppError::LockFailed(m) => m@,
            AppError::NetworkFailed(m) => m@,
        }
    }

    /// The name of a kind.
    pub open spec fn kind_name(kind: AppFault) -> Seq<char> {
        match kind {
            AppFault::LogInitFailed => "LogInitFailed"@,
            AppFault::InvalidResource => "InvalidResource"@,
            AppFault::OutputError => "OutputError"@,
            AppFault::DeviceFailed => "DeviceFailed"@,
            AppFault::LockFailed => "LockFailed"@,
            AppFault::NetworkFailed => "NetworkFailed"@,
        }
    }

    /// The printed form of the error: its name and the quoted message.
    pub open spec fn text(&self) -> Seq<char> {
        Self::kind_name(self.kind()) + "("@ + debug_text(self.message()) + ")"@
    }

    /// Prints the error.
    pub fn to_text(&self) -> (r: String)
        ensures
            r@ == self.text(),
    {
        match self {
            AppError::LogInitFailed(m) => labelled("LogInitFailed", m.as_str()),
            AppError::InvalidResource(m) => labelled("InvalidResource", m.as_str()),
            AppError::OutputError(m) => labelled("OutputError", m.as_str()),
            AppError::DeviceFailed(m) => labelled("DeviceFailed", m.as_str()),
            AppError::LockFailed(m) => labelled("LockFailed", m.as_str()),
            AppError::NetworkFailed(m) => labelled("NetworkFailed", m.as_str()),
        }
    }

    /// A copy of the error.
    pub fn duplicate(&self) -> (r: AppError)
        ensures
            r.kind() == self.kind(),
            r.message() == self.message(),
    {
        match self {
            AppError::LogInitFailed(m) => AppError::LogInitFailed(m.clone()),
            AppError::InvalidResource(m) => AppError::InvalidResource(m.clone()),
            AppError::OutputError(m) => AppError::OutputError(m.clone()),
            AppError::DeviceFailed(m) => AppError::DeviceFailed(m.clone()),
            AppError::LockFailed(m) => AppError::LockFailed(m.clone()),
            AppError::NetworkFailed(m) => AppError::NetworkFailed(m.clone()),
        }
    }

    /// A folder that cannot be used is an invalid resource.
    pub fn from_resource(err: &ResourceError) -> (r: AppError)
        ensures
            r matches AppError::InvalidResource(m) && m@ == err.text(),
    {
        AppError::InvalidResource(err.to_text())
    }

    /// A camera failure means that the device failed.
    pub fn from_hardware(err: &HardwareError) -> (r: AppError)
        ensures
            r matches AppError::DeviceFailed(m) && m@ == err.text(),
    {
        AppError::DeviceFailed(err.to_text())
    }

    /// A marker that cannot be written means that the lock failed.
    pub fn from_lock(err: &LockError) -> (r: AppError)
        ensures
            r matches AppError::LockFailed(m) && m@ == err.text(),
    {
        AppError::LockFailed(err.to_text())
    }

    /// A failed time lookup means that the network failed.
    pub fn from_time_probe(err: &TimeProbeError) -> (r: AppError)
        ensures
            r matches AppError::NetworkFailed(m) && m@ == err.text(),
    {
        AppError::NetworkFailed(err.to_text())
    }

    /// An image that cannot be saved is an output error; `detail` is the
    /// image library's description.
    pub fn from_image(detail: &str) -> (r: AppError)
        ensures
            r matches AppError::OutputError(m) && m@ == "failed to save frame: "@ + detail@,
    {
        let mut message = String::from_str("failed to save frame: ");
        message.append(detail);
        AppError::OutputError(message)
    }

    /// A log that cannot be set up; `detail` is the logging library's description.
    pub fn from_log(detail: &str) -> (r: AppError)
        ensures
            r matches AppError::LogInitFailed(m) && m@ == detail@,
    {
        AppError::LogInitFailed(String::from_str(detail))
    }
}

} // verus!
