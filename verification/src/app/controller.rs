//! The run controller: the order of a run's steps, as a machine that its
//! driver feeds with what each step gave.
//!
//! The driver owns the scheduler, the camera session and the marker file. It
//! carries out the action that the controller names and reports the result as
//! an event; the controller answers with the next action.

use super::error::{AppError, AppFault};
use crate::hardware::error::HardwareError;
use crate::resources::lock_file::LockError;
use crate::resources::time_probe::TimeProbeError;
use vstd::prelude::*;

verus! {

/// Where a run stands.
#[derive(Debug, Clone, Copy, PartialEq, Eq, Structural)]
pub enum Stage {
    /// Nothing has been started.
    Idle,
    /// The camera is being made and initialized.
    Initializing,
    /// The reference time is being fetched from the network.
    Syncing,
    /// The marker file is being written.
    Locking,
    /// The scheduler is being asked for the next tick.
    AwaitingTick,
    /// The camera is being asked for a frame.
    Capturing,
    /// The frame is being handed to persistence.
    Persisting,
    /// The marker file is being looked for.
    CheckingFlag,
    /// The camera is being shut down.
    ShuttingDown,
    /// The run is over.
    Finished,
}

/// What the driver does next.
#[derive(Debug, Clone, Copy, PartialEq, Eq, Structural)]
pub enum RunAction {
    /// Make the camera and initialize it.
    InitializeCamera,
    /// Look the time up on the network and correct the scheduler.
    SyncTime,
    /// Write the marker file.
    TakeLock,
    /// Pull the next tick from the scheduler.
    PullTick,
    /// Fetch a frame from the camera.
    CaptureFrame,
    /// Hand the frame and the tick's snapshot to persistence.
    PersistFrame,
    /// Look whether the marker file is still there.
    CheckFlag,
    /// Shut the camera down.
    ShutdownCamera,
    /// Stop: the run is over, and the controller holds its result.
    Exit,
}

/// What the driver reports.
pub enum RunEvent {
    /// The run is to begin.
    Start,
    /// Answers `InitializeCamera`.
    CameraReady(Result<(), HardwareError>),
    /// Answers `SyncTime`.
    TimeSynced(Result<(), TimeProbeError>),
    /// Answers `TakeLock`.
    LockTaken(Result<(), LockError>),
    /// Answers `PullTick`: whether the scheduler gave a tick, or has ended.
    Ticked { more: bool },
    /// Answers `CaptureFrame`.
    Captured(Result<(), HardwareError>),
    /// Answers `PersistFrame`.
    Persisted(Result<(), AppError>),
    /// Answers `CheckFlag`: whether the marker file is there.
    Flag { present: bool },
    /// Answers `ShutdownCamera`.
    ShutDown(Result<(), HardwareError>),
}

/// A failure as kind and message.
pub struct Failure {
    pub kind: AppFault,
    pub message: Seq<char>,
}

/// The mathematical content of a [`RunController`].
pub struct RunState {
    pub stage: Stage,
    /// Whether the time is fetched from the network before sampling.
    pub use_ntp: bool,
    /// Whether the camera was initialized, so that it must be shut down.
    pub opened: bool,
    /// Samples captured and persisted so far.
    pub completed: u64,
    /// How often the camera was told to shut down.
    pub shutdowns: u64,
    /// The failure that the run ends with, once there is one.
    pub failure: Option<Failure>,
}

/// A counter after one more: it stops at the largest value it can hold.
pub open spec fn counted(count: u64) -> u64 {
    if count < u64::MAX {
        (count + 1) as u64
    } else {
        count
    }
}

/// The failure that a camera failure means for the run.
pub open spec fn device_failure(err: HardwareError) -> Failure {
    Failure { kind: AppFault::DeviceFailed, message: err.text() }
}

impl RunState {
    /// A run that has not begun.
    pub open spec fn created(use_ntp: bool) -> RunState {
        RunState {
            stage: Stage::Idle,
            use_ntp,
            opened: false,
            completed: 0,
            shutdowns: 0,
            failure: None,
        }
    }

    /// The action that is outstanding in a stage.
    pub open spec fn outstanding(stage: Stage) -> RunAction {
        match stage {
            Stage::Idle => RunAction::InitializeCamera,
            Stage::Initializing => RunAction::InitializeCamera,
            Stage::Syncing => RunAction::SyncTime,
            Stage::Locking => RunAction::TakeLock,
            Stage::AwaitingTick => RunAction::PullTick,
            Stage::Capturing => RunAction::CaptureFrame,
            Stage::Persisting => RunAction::PersistFrame,
            Stage::CheckingFlag => RunAction::CheckFlag,
            Stage::ShuttingDown => RunAction::ShutdownCamera,
            Stage::Finished => RunAction::Exit,
        }
    }

    /// The run moves on to `stage`.
    pub open spec fn go(self, stage: Stage) -> (RunState, RunAction) {
        (RunState { stage, ..self }, Self::outstanding(stage))
    }

    /// The run is torn down: the camera is told to shut down, and the run will
    /// end with `failure` if there is one.
    pub open spec fn tear_down(self, failure: Option<Failure>) -> (RunState, RunAction) {
        (
            RunState {
                stage: Stage::ShuttingDown,
                shutdowns: counted(self.shutdowns),
                failure,
                ..self
            },
            RunAction::ShutdownCamera,
        )
    }

    /// The run ends.
    pub open spec fn end(self, failure: Option<Failure>) -> (RunState, RunAction) {
        (RunState { stage: Stage::Finished, failure, ..self }, RunAction::Exit)
    }

    /// The state and the next action after an event. An event that does not
    /// answer the outstanding action changes nothing, and the action is named
    /// again.
    pub open spec fn step(self, event: RunEvent) -> (RunState, RunAction) {
        match (self.stage, event) {
            (Stage::Idle, RunEvent::Start) => self.go(Stage::Initializing),
            (Stage::Initializing, RunEvent::CameraReady(Ok(_))) => RunState {
                opened: true,
                ..self
            }.go(
                if self.use_ntp {
                    Stage::Syncing
                } else {
                    Stage::Locking
                },
            ),
            (Stage::Initializing, RunEvent::CameraReady(Err(err))) => self.end(
                Some(device_failure(err)),
            ),
            (Stage::Syncing, RunEvent::TimeSynced(Ok(_))) => self.go(Stage::Locking),
            (Stage::Syncing, RunEvent::TimeSynced(Err(err))) => self.tear_down(
                Some(Failure { kind: AppFault::NetworkFailed, message: err.text() }),
            ),
            (Stage::Locking, RunEvent::LockTaken(Ok(_))) => self.go(Stage::AwaitingTick),
            (Stage::Locking, RunEvent::LockTaken(Err(err))) => self.tear_down(
                Some(Failure { kind: AppFault::LockFailed, message: err.text() }),
            ),
            (Stage::AwaitingTick, RunEvent::Ticked { more }) => if more {
                self.go(Stage::Capturing)
            } else {
                self.tear_down(None)
            },
            (Stage::Capturing, RunEvent::Captured(Ok(_))) => self.go(Stage::Persisting),
            (Stage::Capturing, RunEvent::Captured(Err(err))) => self.tear_down(
                Some(device_failure(err)),
            ),
            (Stage::Persisting, RunEvent::Persisted(Ok(_))) => RunState {
                completed: counted(self.completed),
                ..self
            }.go(Stage::CheckingFlag),
            (Stage::Persisting, RunEvent::Persisted(Err(err))) => self.tear_down(
                Some(Failure { kind: err.kind(), message: err.message() }),
            ),
            (Stage::CheckingFlag, RunEvent::Flag { present }) => if present {
                self.go(Stage::AwaitingTick)
            } else {
                self.tear_down(None)
            },
            (Stage::ShuttingDown, RunEvent::ShutDown(Ok(_))) => self.end(self.failure),
            (Stage::ShuttingDown, RunEvent::ShutDown(Err(err))) => self.end(
                match self.failure {
                    Some(failure) => Some(failure),
                    None => Some(device_failure(err)),
                },
            ),
            _ => (self, Self::outstanding(self.stage)),
        }
    }
}

/// The controller of one run.
pub struct RunController {
    stage: Stage,
    use_ntp: bool,
    opened: bool,
    completed: u64,
    shutdowns: u64,
    failure: Option<AppError>,
}

impl View for RunController {
    type V = RunState;

    closed spec fn view(&self) -> RunState {
        RunState {
            stage: self.stage,
            use_ntp: self.use_ntp,
            opened: self.opened,
            completed: self.completed,
            shutdowns: self.shutdowns,
            failure: match self.failure {
                Some(err) => Some(Failure { kind: err.kind(), message: err.message() }),
                None => None,
            },
        }
    }
}

impl RunController {
    /// The controller of a run that has not begun.
    pub fn new(use_ntp: bool) -> (r: RunController)
        ensures
            r@ == RunState::created(use_ntp),
    {
        RunController {
            stage: Stage::Idle,
            use_ntp,
            opened: false,
            completed: 0,
            shutdowns: 0,
            failure: None,
        }
    }

    /// Where the run stands.
    pub fn stage(&self) -> (r: Stage)
        ensures
            r == self@.stage,
    {
        self.stage
    }

    /// The number of samples captured and persisted so far.
    pub fn completed(&self) -> (r: u64)
        ensures
            r == self@.completed,
    {
        self.completed
    }

    /// How often the camera was told to shut down.
    pub fn shutdowns(&self) -> (r: u64)
        ensures
            r == self@.shutdowns,
    {
        self.shutdowns
    }

    /// The result of the run, once it is over: the failure it ended with, or
    /// success.
    pub fn result(&self) -> (r: Option<Result<(), AppError>>)
        ensures
            self@.stage != Stage::Finished ==> r is None,
            self@.stage == Stage::Finished ==> match self@.failure {
                Some(failure) => r matches Some(Err(e)) && e.kind() == failure.kind
                    && e.message() == failure.message,
                None => r matches Some(Ok(_)),
            },
    {
        if self.stage != Stage::Finished {
            return None;
        }
        match &self.failure {
            Some(err) => Some(Err(err.duplicate())),
            None => Some(Ok(())),
        }
    }

    /// Moves on to `stage`.
    fn go(&mut self, stage: Stage) -> (r: RunAction)
        ensures
            (final(self)@, r) == old(self)@.go(stage),
    {
        self.stage = stage;
        match stage {
            Stage::Idle => RunAction::InitializeCamera,
            Stage::Initializing => RunAction::InitializeCamera,
            Stage::Syncing => RunAction::SyncTime,
            Stage::Locking => RunAction::TakeLock,
            Stage::AwaitingTick => RunAction::PullTick,
            Stage::Capturing => RunAction::CaptureFrame,
            Stage::Persisting => RunAction::PersistFrame,
            Stage::CheckingFlag => RunAction::CheckFlag,
            Stage::ShuttingDown => RunAction::ShutdownCamera,
            Stage::Finished => RunAction::Exit,
        }
    }

    /// Starts the teardown.
    fn tear_down(&mut self, failure: Option<AppError>) -> (r: RunAction)
        ensures
            (final(self)@, r) == old(self)@.tear_down(
                match failure {
                    Some(err) => Some(Failure { kind: err.kind(), message: err.message() }),
                    None => None,
                },
            ),
    {
        self.stage = Stage::ShuttingDown;
        if self.shutdowns < u64::MAX {
            self.shutdowns = self.shutdowns + 1;
        }
        self.failure = failure;
        RunAction::ShutdownCamera
    }

    /// Takes what the outstanding action gave and names the next action.
    pub fn step(&mut self, event: RunEvent) -> (r: RunAction)
        ensures
            (final(self)@, r) == old(self)@.step(event),
    {
        let stage = self.stage;
        match (stage, event) {
            (Stage::Idle, RunEvent::Start) => self.go(Stage::Initializing),
            (Stage::Initializing, RunEvent::CameraReady(Ok(_))) => {
                self.opened = true;
                if self.use_ntp {
                    self.go(Stage::Syncing)
                } else {
                    self.go(Stage::Locking)
                }
            },
            (Stage::Initializing, RunEvent::CameraReady(Err(err))) => {
                self.failure = Some(AppError::from_hardware(&err));
                self.go(Stage::Finished)
            },
            (Stage::Syncing, RunEvent::TimeSynced(Ok(_))) => self.go(Stage::Locking),
            (Stage::Syncing, RunEvent::TimeSynced(Err(err))) => self.tear_down(
                Some(AppError::from_time_probe(&err)),
            ),
            (Stage::Locking, RunEvent::LockTaken(Ok(_))) => self.go(Stage::AwaitingTick),
            (Stage::Locking, RunEvent::LockTaken(Err(err))) => self.tear_down(
                Some(AppError::from_lock(&err)),
            ),
            (Stage::AwaitingTick, RunEvent::Ticked { more }) => {
                if more {
                    self.go(Stage::Capturing)
                } else {
                    self.tear_down(None)
                }
            },
            (Stage::Capturing, RunEvent::Captured(Ok(_))) => self.go(Stage::Persisting),
            (Stage::Capturing, RunEvent::Captured(Err(err))) => self.tear_down(
                Some(AppError::from_hardware(&err)),
            ),
            (Stage::Persisting, RunEvent::Persisted(Ok(_))) => {
                if self.completed < u64::MAX {
                    self.completed = self.completed + 1;
                }
                self.go(Stage::CheckingFlag)
            },
            (Stage::Persisting, RunEvent::Persisted(Err(err))) => self.tear_down(Some(err)),
            (Stage::CheckingFlag, RunEvent::Flag { present }) => {
                if present {
                    self.go(Stage::AwaitingTick)
                } else {
                    self.tear_down(None)
                }
            },
            (Stage::ShuttingDown, RunEvent::ShutDown(Ok(_))) => self.go(Stage::Finished),
            (Stage::ShuttingDown, RunEvent::ShutDown(Err(err))) => {
                if self.failure.is_none() {
                    self.failure = Some(AppError::from_hardware(&err));
                }
                self.go(Stage::Finished)
            },
            _ => self.go(stage),
        }
    }
}

} // verus!
