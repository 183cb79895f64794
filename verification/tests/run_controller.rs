use rust_snapshot::app::config::{Manifest, ManifestConfig, ManifestExport};
use rust_snapshot::app::controller::{RunAction, RunController, RunEvent, Stage};
use rust_snapshot::app::error::AppError;
use rust_snapshot::app::App;
use rust_snapshot::hardware::{
    Camera, CameraFactory, CameraLike, DecodedImage, HardwareError, Request, Response, Step,
};
use rust_snapshot::resources::{
    ConfigMap, LockError, Tick, TimeProbe, TimeProbeConfig, TimeProbeError, TimeSnapshot,
};

/// Everything around a run, held in memory: a clock whose sleeps overshoot by
/// a millisecond, a folder of two pictures, the marker, and what was persisted.
struct World {
    now: u64,
    probe: TimeProbe,
    camera: Option<Camera>,
    config: ConfigMap,
    snapshot: Option<TimeSnapshot>,
    persisted: Vec<(u8, u128)>,
    actions: Vec<RunAction>,
    /// The marker is removed once this many samples are complete.
    remove_marker_after: Option<u64>,
    marker: bool,
    /// The capture of this sample (counted from one) fails.
    fail_capture_at: Option<u64>,
    fail_shutdown: bool,
    fail_persist: bool,
    fail_lock: bool,
    fail_sync: bool,
    synced: bool,
}

impl World {
    fn new(schedule: TimeProbeConfig, repeat: bool) -> World {
        let mut config = ConfigMap::new();
        config.set("use_mock", "1");
        config.set("use_mock_folder", "frames");
        if repeat {
            config.set("use_mock_repeat_frames", "true");
        }
        World {
            now: 0,
            probe: TimeProbe::new(schedule, 0, 1_600_000_000),
            camera: None,
            config,
            snapshot: None,
            persisted: Vec::new(),
            actions: Vec::new(),
            remove_marker_after: None,
            marker: false,
            fail_capture_at: None,
            fail_shutdown: false,
            fail_persist: false,
            fail_lock: false,
            fail_sync: false,
            synced: false,
        }
    }

    fn answer(&self, request: Request) -> Response {
        match request {
            Request::ListFolder(path) => Response::Listing {
                present: path == "frames",
                names: Ok(vec!["B.png".to_string(), "A.png".to_string()]),
            },
            Request::DecodeFile(path) => {
                let colour = if path == "frames/A.png" { b'A' } else { b'B' };
                Response::Decoded(Ok(DecodedImage {
                    width: 2,
                    height: 2,
                    data: vec![colour; 12],
                }))
            }
            Request::Native(_) => panic!("a replay camera makes no native calls"),
        }
    }

    fn drive(&mut self, first: Step) -> Result<(), HardwareError> {
        let mut step = first;
        loop {
            match step {
                Step::Perform(request) => {
                    let response = self.answer(request);
                    step = self.camera.as_mut().unwrap().resume(response);
                }
                Step::Ready | Step::Frame => return Ok(()),
                Step::Failed { error, .. } => return Err(error),
            }
        }
    }

    fn perform(&mut self, action: RunAction, completed: u64) -> RunEvent {
        self.actions.push(action);
        match action {
            RunAction::InitializeCamera => {
                let (camera, step) = CameraFactory::new(self.config.clone()).create_camera();
                self.camera = Some(camera);
                RunEvent::CameraReady(self.drive(step))
            }
            RunAction::SyncTime => {
                let lookup =
                    if self.fail_sync { Err("timed out".to_string()) } else { Ok(1_700_000_000) };
                let result = self.probe.sync_network_time(lookup, self.now);
                self.synced = result.is_ok();
                RunEvent::TimeSynced(result)
            }
            RunAction::TakeLock => {
                if self.fail_lock {
                    RunEvent::LockTaken(Err(LockError::IoFailed("read-only".to_string())))
                } else {
                    self.marker = true;
                    RunEvent::LockTaken(Ok(()))
                }
            }
            RunAction::PullTick => loop {
                match self.probe.poll(self.now) {
                    Tick::Sample(snapshot) => {
                        self.snapshot = Some(snapshot);
                        return RunEvent::Ticked { more: true };
                    }
                    Tick::Idle(wait) => self.now += wait + 1,
                    Tick::Finished => return RunEvent::Ticked { more: false },
                }
            },
            RunAction::CaptureFrame => {
                if self.fail_capture_at == Some(completed + 1) {
                    return RunEvent::Captured(Err(HardwareError::DeviceNoLongerAvailable(
                        "unplugged".to_string(),
                    )));
                }
                let first = self.camera.as_mut().unwrap().next();
                RunEvent::Captured(self.drive(first))
            }
            RunAction::PersistFrame => {
                if self.fail_persist {
                    return RunEvent::Persisted(Err(AppError::from_image("disk full")));
                }
                let camera = self.camera.as_ref().unwrap();
                let frame = camera.frame().expect("a captured frame is on offer");
                assert_eq!(frame.as_raw().len(), (frame.width() * frame.height() * 3) as usize);
                let snapshot = self.snapshot.take().expect("a tick came before the frame");
                self.persisted.push((frame.as_raw()[0], snapshot.elapsed));
                RunEvent::Persisted(Ok(()))
            }
            RunAction::CheckFlag => {
                if self.remove_marker_after.map_or(false, |n| completed >= n) {
                    self.marker = false;
                }
                RunEvent::Flag { present: self.marker }
            }
            RunAction::ShutdownCamera => {
                let result = self.camera.as_mut().unwrap().shutdown();
                if self.fail_shutdown {
                    RunEvent::ShutDown(Err(HardwareError::DeviceFailed("stuck".to_string())))
                } else {
                    RunEvent::ShutDown(result.map(|_| ()))
                }
            }
            RunAction::Exit => panic!("nothing is performed after the exit"),
        }
    }

    fn run(&mut self, use_ntp: bool) -> (RunController, Result<(), AppError>) {
        let mut controller = RunController::new(use_ntp);
        assert_eq!(controller.stage(), Stage::Idle);
        assert!(controller.result().is_none());
        let mut action = controller.step(RunEvent::Start);
        while action != RunAction::Exit {
            let event = self.perform(action, controller.completed());
            action = controller.step(event);
        }
        assert_eq!(controller.stage(), Stage::Finished);
        let result = controller.result().unwrap();
        (controller, result)
    }

    fn count(&self, action: RunAction) -> usize {
        self.actions.iter().filter(|a| **a == action).count()
    }
}

#[test]
fn four_samples_cycle_through_two_images() {
    let mut world = World::new(
        TimeProbeConfig { interval: 500, idle: 100, time_scale: 1, samples: 4 },
        true,
    );
    let (controller, result) = world.run(false);
    assert!(result.is_ok());
    assert_eq!(controller.completed(), 4);
    assert_eq!(world.persisted.len(), 4);
    let images: Vec<u8> = world.persisted.iter().map(|p| p.0).collect();
    assert_eq!(images, vec![b'A', b'B', b'A', b'B']);
    for (i, (_, elapsed)) in world.persisted.iter().enumerate() {
        let due = 500 * (i as u128 + 1);
        assert!(*elapsed > due, "sample {} comes after {} ms", i + 1, due);
        assert!(*elapsed <= due + 101 * (i as u128 + 1), "within one idle step per sample");
    }
    assert_eq!(world.count(RunAction::ShutdownCamera), 1);
    assert_eq!(controller.shutdowns(), 1);
    assert_eq!(world.count(RunAction::CheckFlag), 4);
    assert_eq!(world.count(RunAction::PullTick), 5);
    assert_eq!(world.actions.last(), Some(&RunAction::ShutdownCamera));
}

#[test]
fn removing_the_marker_stops_the_run_after_the_sample_under_way() {
    let mut world = World::new(
        TimeProbeConfig { interval: 500, idle: 100, time_scale: 1, samples: -1 },
        true,
    );
    // the marker is still there when it is looked for after the second
    // sample, and gone when it is looked for after the third
    world.remove_marker_after = Some(3);
    let (controller, result) = world.run(false);
    assert!(result.is_ok());
    assert_eq!(controller.completed(), 3);
    assert_eq!(world.persisted.len(), 3);
    assert_eq!(world.count(RunAction::CaptureFrame), 3);
    assert_eq!(world.count(RunAction::PersistFrame), 3);
    assert_eq!(world.count(RunAction::CheckFlag), 3);
    assert_eq!(world.count(RunAction::ShutdownCamera), 1);
    let tail: Vec<RunAction> = world.actions[world.actions.len() - 4..].to_vec();
    assert_eq!(
        tail,
        vec![
            RunAction::CaptureFrame,
            RunAction::PersistFrame,
            RunAction::CheckFlag,
            RunAction::ShutdownCamera
        ]
    );
}

#[test]
fn run_makes_its_steps_in_order() {
    let mut world = World::new(
        TimeProbeConfig { interval: 10, idle: 5, time_scale: 1, samples: 1 },
        false,
    );
    let (_, result) = world.run(true);
    assert!(result.is_ok());
    assert!(world.synced);
    assert_eq!(
        world.actions,
        vec![
            RunAction::InitializeCamera,
            RunAction::SyncTime,
            RunAction::TakeLock,
            RunAction::PullTick,
            RunAction::CaptureFrame,
            RunAction::PersistFrame,
            RunAction::CheckFlag,
            RunAction::PullTick,
            RunAction::ShutdownCamera
        ]
    );
    let mut world = World::new(
        TimeProbeConfig { interval: 10, idle: 5, time_scale: 1, samples: 0 },
        false,
    );
    let (controller, result) = world.run(false);
    assert!(result.is_ok());
    assert_eq!(controller.completed(), 0);
    assert_eq!(
        world.actions,
        vec![
            RunAction::InitializeCamera,
            RunAction::TakeLock,
            RunAction::PullTick,
            RunAction::ShutdownCamera
        ]
    );
}

#[test]
fn failed_capture_is_propagated_after_the_shutdown() {
    let mut world = World::new(
        TimeProbeConfig { interval: 500, idle: 100, time_scale: 1, samples: -1 },
        true,
    );
    world.fail_capture_at = Some(3);
    let (controller, result) = world.run(false);
    match result {
        Err(AppError::DeviceFailed(message)) => {
            assert_eq!(message, "DeviceNoLongerAvailable(\"unplugged\")");
        }
        _ => panic!("the capture failed"),
    }
    assert_eq!(controller.completed(), 2);
    assert_eq!(world.persisted.len(), 2);
    assert_eq!(world.count(RunAction::ShutdownCamera), 1);
    assert_eq!(world.actions.last(), Some(&RunAction::ShutdownCamera));
    assert_eq!(world.count(RunAction::PersistFrame), 2);
}

#[test]
fn exhausted_replay_ends_the_run_with_its_error() {
    let mut world = World::new(
        TimeProbeConfig { interval: 500, idle: 100, time_scale: 1, samples: 5 },
        false,
    );
    let (controller, result) = world.run(false);
    assert!(matches!(
        result,
        Err(AppError::DeviceFailed(m)) if m == "DeviceNoLongerAvailable(\"Ran out of mock frames\")"
    ));
    assert_eq!(controller.completed(), 2);
    assert_eq!(world.count(RunAction::ShutdownCamera), 1);
}

#[test]
fn failed_initialization_ends_the_run_without_a_shutdown() {
    let mut world = World::new(
        TimeProbeConfig { interval: 500, idle: 100, time_scale: 1, samples: 2 },
        false,
    );
    world.config.set("use_mock_folder", "missing");
    let (controller, result) = world.run(true);
    assert!(matches!(
        result,
        Err(AppError::DeviceFailed(m))
            if m == "InvalidSettings(\"NoSuchFolder(\\\"\\\\\\\"missing\\\\\\\"\\\")\")"
    ));
    assert_eq!(world.actions, vec![RunAction::InitializeCamera]);
    assert_eq!(controller.shutdowns(), 0);
}

#[test]
fn failures_before_the_loop_still_shut_the_camera_down() {
    let schedule = TimeProbeConfig { interval: 500, idle: 100, time_scale: 1, samples: 2 };
    let mut world = World::new(schedule, false);
    world.fail_sync = true;
    let (_, result) = world.run(true);
    assert!(matches!(
        result,
        Err(AppError::NetworkFailed(m))
            if m == "NetworkSyncFailed(\"NTP lookup failed: timed out\")"
    ));
    assert_eq!(
        world.actions,
        vec![RunAction::InitializeCamera, RunAction::SyncTime, RunAction::ShutdownCamera]
    );

    let mut world = World::new(schedule, false);
    world.fail_lock = true;
    let (_, result) = world.run(false);
    assert!(matches!(result, Err(AppError::LockFailed(m)) if m == "IoFailed(\"read-only\")"));
    assert_eq!(
        world.actions,
        vec![RunAction::InitializeCamera, RunAction::TakeLock, RunAction::ShutdownCamera]
    );
}

#[test]
fn failed_persistence_and_failed_shutdown_are_reported() {
    let schedule = TimeProbeConfig { interval: 500, idle: 100, time_scale: 1, samples: 2 };
    let mut world = World::new(schedule, false);
    world.fail_persist = true;
    world.fail_shutdown = true;
    let (controller, result) = world.run(false);
    // the first failure is the one that the run ends with
    assert!(
        matches!(result, Err(AppError::OutputError(m)) if m == "failed to save frame: disk full")
    );
    assert_eq!(controller.completed(), 0);
    assert_eq!(world.count(RunAction::ShutdownCamera), 1);

    let mut world = World::new(schedule, false);
    world.fail_shutdown = true;
    let (controller, result) = world.run(false);
    assert!(matches!(result, Err(AppError::DeviceFailed(m)) if m == "DeviceFailed(\"stuck\")"));
    assert_eq!(controller.completed(), 2);
}

#[test]
fn events_that_answer_nothing_change_nothing() {
    let mut controller = RunController::new(false);
    assert_eq!(controller.step(RunEvent::Flag { present: false }), RunAction::InitializeCamera);
    assert_eq!(controller.stage(), Stage::Idle);
    assert_eq!(controller.step(RunEvent::Start), RunAction::InitializeCamera);
    assert_eq!(controller.stage(), Stage::Initializing);
    assert_eq!(controller.step(RunEvent::Start), RunAction::InitializeCamera);
    assert_eq!(controller.step(RunEvent::CameraReady(Ok(()))), RunAction::TakeLock);
    assert_eq!(controller.step(RunEvent::LockTaken(Ok(()))), RunAction::PullTick);
    // the marker is not looked at while a sample is under way
    assert_eq!(controller.step(RunEvent::Flag { present: false }), RunAction::PullTick);
    assert_eq!(controller.step(RunEvent::Ticked { more: true }), RunAction::CaptureFrame);
    assert_eq!(controller.step(RunEvent::Flag { present: false }), RunAction::CaptureFrame);
    assert_eq!(controller.step(RunEvent::Persisted(Ok(()))), RunAction::CaptureFrame);
    assert_eq!(controller.step(RunEvent::Captured(Ok(()))), RunAction::PersistFrame);
    assert_eq!(controller.step(RunEvent::Flag { present: false }), RunAction::PersistFrame);
    assert_eq!(controller.completed(), 0);
    assert_eq!(controller.step(RunEvent::Persisted(Ok(()))), RunAction::CheckFlag);
    assert_eq!(controller.completed(), 1);
    assert_eq!(controller.step(RunEvent::Flag { present: false }), RunAction::ShutdownCamera);
    assert_eq!(controller.stage(), Stage::ShuttingDown);
    assert_eq!(controller.step(RunEvent::Ticked { more: true }), RunAction::ShutdownCamera);
    assert_eq!(controller.shutdowns(), 1);
    assert_eq!(controller.step(RunEvent::ShutDown(Ok(()))), RunAction::Exit);
    assert_eq!(controller.step(RunEvent::Start), RunAction::Exit);
    assert_eq!(controller.step(RunEvent::ShutDown(Ok(()))), RunAction::Exit);
    assert_eq!(controller.shutdowns(), 1);
    assert!(matches!(controller.result(), Some(Ok(()))));
    let failed: Result<(), TimeProbeError> =
        Err(TimeProbeError::NetworkSyncFailed("late".to_string()));
    assert_eq!(controller.step(RunEvent::TimeSynced(failed)), RunAction::Exit);
    assert!(matches!(controller.result(), Some(Ok(()))));
}

fn manifest() -> Manifest {
    Manifest {
        config: ManifestConfig {
            output_folder: "out/frames".to_string(),
            log_folder: "out/logs".to_string(),
            lock_file: "out/run.lock".to_string(),
            sample_interval: 60_000,
            sample_idle: 250,
            use_ntp: true,
        },
        export: ManifestExport { export_file: "out/video.webm".to_string(), export_framerate: 24 },
        settings: vec![
            ("use_mock".to_string(), "yes".to_string()),
            ("use_mock_folder".to_string(), "frames".to_string()),
            ("use_mock".to_string(), "no".to_string()),
        ],
    }
}

#[test]
fn app_is_made_from_its_manifest() {
    let app = App::new(manifest(), Ok(()), Ok(())).unwrap();
    let schedule = app.probe_config();
    assert_eq!(schedule.interval, 60_000);
    assert_eq!(schedule.idle, 250);
    assert_eq!(schedule.samples, -1);
    assert_eq!(schedule.time_scale, 1);
    assert_eq!(app.run_lock().path(), "out/run.lock");
    assert!(!app.camera_factory().use_mock());
    let config = App::create_camera_config(&manifest());
    assert_eq!(config.get_string("use_mock"), Some("no".to_string()));
    assert_eq!(config.get_string("use_mock_folder"), Some("frames".to_string()));
    let mut controller = app.run();
    controller.step(RunEvent::Start);
    // the manifest asks for the network time
    assert_eq!(controller.step(RunEvent::CameraReady(Ok(()))), RunAction::SyncTime);

    let probe = TimeProbe::new(schedule, 0, 1_056_999_157);
    let snapshot = probe.as_snapshot(3000);
    let path = app.image_logger().save(&snapshot).unwrap();
    assert_eq!(path, "out/frames/1056999160000-Mon, 30 Jun 2003 18:52:40 +0000.png");
}

#[test]
fn app_needs_its_folders() {
    match App::new(manifest(), Err("denied".to_string()), Ok(())) {
        Err(AppError::InvalidResource(message)) => {
            assert_eq!(message, "UnableToCreateFolder(\"denied\")");
        }
        _ => panic!("the output folder could not be created"),
    }
    match App::new(manifest(), Ok(()), Err("full".to_string())) {
        Err(err) => {
            assert_eq!(err.to_text(), "InvalidResource(\"UnableToCreateFolder(\\\"full\\\")\")");
            assert_eq!(err.to_text(), format!("{:?}", err));
        }
        _ => panic!("the log folder could not be created"),
    }
    let err = AppError::from_log("no terminal");
    assert!(matches!(&err, AppError::LogInitFailed(m) if m == "no terminal"));
    let copy = err.duplicate();
    assert_eq!(copy.to_text(), err.to_text());
}
