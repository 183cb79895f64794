//! The native capture session: which handles of the decoding library are held,
//! which native call comes next, and what is released on every way out.
//!
//! The session never touches a native handle itself. It tells its driver which
//! call to make ([`NativeCall`]), takes what the call reported ([`NativeReply`])
//! and answers with the next call, a result, or a failure together with the
//! handles that the driver must release.

pub mod error;
pub mod helpers;
pub mod laws;
pub mod session;
pub mod settings;

pub use self::error::{as_error, CaptureError, CaptureFault};
pub use self::helpers::as_rgb_image;
pub use self::session::{
    is_transient, last_video, select_video_stream, transient, Capture, CaptureState, Handle,
    NativeCall, NativeReply, Outcome, Phase, Progress, Resource,
};
pub use self::settings::CaptureSettings;
