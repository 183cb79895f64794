//! What the capture pipeline is configured and timed with.

pub mod config_map;
pub mod lock_file;
pub mod paths;
pub mod resource_folder;
pub mod schedule_laws;
pub mod time_probe;

pub use self::config_map::ConfigMap;
pub use self::lock_file::{LockError, LockFile};
pub use self::resource_folder::{ResourceError, ResourceFolder};
pub use self::time_probe::{Tick, TimeProbe, TimeProbeConfig, TimeProbeError, TimeSnapshot};
