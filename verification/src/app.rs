//! The run: what is sampled where, and the controller that orders tick,
//! capture, persistence, the cancellation check and the teardown.

pub mod config;
pub mod controller;
pub mod error;
pub mod image_logger;
pub mod run_laws;

use self::config::Manifest;
use self::error::AppError;
use crate::hardware::factory::CameraFactory;
use crate::resources::config_map::{imported, ConfigMap};
use crate::resources::lock_file::LockFile;
use crate::resources::resource_folder::{ResourceError, ResourceFolder};
use crate::resources::time_probe::TimeProbeConfig;
use vstd::prelude::*;

verus! {

/// One configured run.
pub struct App {
    manifest: Manifest,
    output: ResourceFolder,
    logs: ResourceFolder,
    camera_config: ConfigMap,
}

impl App {
    /// The manifest that the run was made from.
    pub closed spec fn manifest(&self) -> Manifest {
        self.manifest
    }

    /// The folder that frames are written to.
    pub closed spec fn output(&self) -> ResourceFolder {
        self.output
    }

    /// The folder that logs are written to.
    pub closed spec fn logs(&self) -> ResourceFolder {
        self.logs
    }

    /// The settings that the camera is made from.
    pub closed spec fn camera_settings(&self) -> Map<Seq<char>, Seq<char>> {
        self.camera_config@
    }

    /// The run that `manifest` describes. `output_created` and `log_created`
    /// say how creating the output folder and the log folder went where they
    /// were missing; the first that failed fails the run with
    /// `InvalidResource`.
    pub fn new(
        manifest: Manifest,
        output_created: Result<(), String>,
        log_created: Result<(), String>,
    ) -> (r: Result<App, AppError>)
        ensures
            match (output_created, log_created) {
                (Ok(_), Ok(_)) => r matches Ok(app) && app.manifest() == manifest
                    && app.output().is_ready() && app.output().location()
                    == manifest.config.output_folder@ && app.logs().is_ready()
                    && app.logs().location() == manifest.config.log_folder@
                    && app.camera_settings() == imported(Map::empty(), manifest.settings@),
                (Err(message), _) => r matches Err(AppError::InvalidResource(m)) && m@
                    == (ResourceError::UnableToCreateFolder(message)).text(),
                (Ok(_), Err(message)) => r matches Err(AppError::InvalidResource(m)) && m@
                    == (ResourceError::UnableToCreateFolder(message)).text(),
            },
    {
        let output = match ResourceFolder::new(manifest.config.output_folder.as_str()).require(
            output_created,
        ) {
            Ok(folder) => folder,
            Err(err) => {
                return Err(AppError::from_resource(&err));
            },
        };
        let logs = match ResourceFolder::new(manifest.config.log_folder.as_str()).require(
            log_created,
        ) {
            Ok(folder) => folder,
            Err(err) => {
                return Err(AppError::from_resource(&err));
            },
        };
        let camera_config = App::create_camera_config(&manifest);
        Ok(App { manifest, output, logs, camera_config })
    }

    /// The camera's settings: those of the manifest, set one after another.
    pub fn create_camera_config(manifest: &Manifest) -> (r: ConfigMap)
        ensures
            r@ == imported(Map::empty(), manifest.settings@),
    {
        let mut config = ConfigMap::new();
        config.import(&manifest.settings);
        config
    }

    /// The folder that logs are written to.
    pub fn log_folder(&self) -> (r: ResourceFolder)
        ensures
            r.is_ready(),
            r.location() == self.logs().location(),
    {
        proof {
            use_type_invariant(self);
        }
        self.logs.clone()
    }

    /// The factory of the run's camera.
    pub fn camera_factory(&self) -> (r: CameraFactory)
        ensures
            r.settings() == self.camera_settings(),
    {
        CameraFactory::new(self.camera_config.clone())
    }

    /// How the run samples: at the manifest's interval and idle time, in real
    /// time, for ever.
    pub fn probe_config(&self) -> (r: TimeProbeConfig)
        ensures
            r.interval == self.manifest().config.sample_interval,
            r.idle == self.manifest().config.sample_idle,
            r.samples == -1,
            r.time_scale == 1,
    {
        TimeProbeConfig {
            time_scale: 1,
            interval: self.manifest.config.sample_interval,
            idle: self.manifest.config.sample_idle,
            samples: -1,
        }
    }

    /// The marker file that keeps the run going.
    pub fn run_lock(&self) -> (r: LockFile)
        ensures
            r.location() == self.manifest().config.lock_file@,
    {
        LockFile::new(self.manifest.config.lock_file.as_str())
    }

    /// The controller of the run, before its first step.
    pub fn run(&self) -> (r: self::controller::RunController)
        ensures
            r@ == self::controller::RunState::created(self.manifest().config.use_ntp),
    {
        self::controller::RunController::new(self.manifest.config.use_ntp)
    }

    /// The logger of the run's frames.
    pub fn image_logger(&self) -> (r: self::image_logger::ImageLogger)
        ensures
            r.folder().is_ready(),
            r.folder().location() == self.output().location(),
    {
        proof {
            use_type_invariant(self);
        }
        self::image_logger::ImageLogger::new(self.output.clone())
    }

    #[verifier::type_invariant]
    spec fn valid(self) -> bool {
        &&& self.output.is_ready()
        &&& self.logs.is_ready()
        &&& self.output.location() == self.manifest.config.output_folder@
        &&& self.logs.location() == self.manifest.config.log_folder@
    }
}

} // verus!
