//! The manifest of a run.

use vstd::prelude::*;

verus! {

/// Everything a run is configured with.
#[derive(Debug, Clone)]
pub struct Manifest {
    pub config: ManifestConfig,
    pub export: ManifestExport,
    /// Device settings, as names and values.
    pub settings: Vec<(String, String)>,
}

/// How the frames of a run are exported as a video.
#[derive(Debug, Clone)]
pub struct ManifestExport {
    /// The path to export to.
    pub export_file: String,
    /// The frame rate to export with.
    pub export_framerate: u32,
}

/// Where a run writes and how it samples.
#[derive(Debug, Clone)]
pub struct ManifestConfig {
    pub output_folder: String,
    pub log_folder: String,
    /// The marker file that controls the run.
    pub lock_file: String,
    /// Milliseconds between frames.
    pub sample_interval: u64,
    /// Milliseconds to sleep before checking for a new frame.
    pub sample_idle: u64,
    /// Whether to fetch the time from the network before starting.
    pub use_ntp: bool,
}

} // verus!
