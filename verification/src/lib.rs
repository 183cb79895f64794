//! Timed capture pipeline for an unattended time-lapse device: a
//! drift-corrected scheduler, camera sessions with an explicit lifecycle, and
//! the run controller that couples them under cooperative cancellation.

pub mod app;
pub mod capture;
pub mod encoding;
pub mod hardware;
pub mod pi_capture;
pub mod resources;
pub mod runtime;
pub mod text;
