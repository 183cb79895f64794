//! The capture session on the camera of a single-board computer: one camera
//! object, set up by a fixed chain of calls, that hands out frames through a
//! receiver.
//!
//! As with the native capture session, the driver makes the calls and reports
//! what they gave.

use crate::encoding::packed_len;
use crate::text::{decimal_i128, decimal_text};
use vstd::prelude::*;
use vstd::string::StringExecFns;

verus! {

/// The fixed parameters of a session.
pub struct CaptureSettings {
    /// Width and height in pixels.
    pub resolution: (u32, u32),
}

/// Why a capture operation failed.
#[derive(Debug, Clone)]
pub enum CaptureError {
    /// The session is not in a state that allows the operation.
    NotReady,
    /// The camera delivered no buffer.
    NoBuffer,
    /// The board reports no camera.
    NoCamerasFound,
    /// The camera library reported an error; the message is the library's.
    CameraError(String),
}

/// One call into the camera library.
#[derive(Debug, Clone, Copy, PartialEq, Eq, Structural)]
pub enum CameraCall {
    /// Ask the board which cameras it has.
    QueryInfo,
    /// Make the camera object.
    CreateCamera,
    /// Select camera number zero.
    SetCameraNum,
    CreateEncoder,
    EnableControlPort,
    /// Apply the parameters of the first camera reported.
    SetCameraParams,
    /// Ask for packed RGB at the configured resolution.
    SetCameraFormat,
    Enable,
    CreatePool,
    CreatePreview,
    ConnectPreview,
    EnablePreview,
    /// Ask the camera for a picture.
    Take,
    /// Wait for the picture's buffer.
    Receive,
}

/// What the driver reports of a call.
pub enum CameraReply {
    /// Answers `QueryInfo`: how many cameras the board has, or the library's error.
    Info(Result<usize, String>),
    /// Answers every call of the set-up chain and `Take`.
    Done(Result<(), String>),
    /// Answers `Receive`: the bytes of the picture, nothing where the camera
    /// sent no buffer, or the error of the channel.
    Received(Result<Option<Vec<u8>>, String>),
}

/// Where a session stands.
#[derive(Debug, Clone, Copy, PartialEq, Eq, Structural)]
pub enum Phase {
    Created,
    Opening,
    Ready,
    Reading,
    Failed,
}

/// What a session answers to its driver.
pub enum Progress {
    /// Make this call and report back.
    Call(CameraCall),
    /// The camera is set up.
    Opened,
    /// One frame was read: its packed bytes.
    Filled(Vec<u8>),
    /// The operation failed. Where `release` is set the driver drops the
    /// camera object.
    Failed { error: CaptureError, release: bool },
}

/// The kind of a [`CaptureError`], without its message.
#[derive(Debug, Clone, Copy, PartialEq, Eq, Structural)]
pub enum CaptureFault {
    NotReady,
    NoBuffer,
    NoCamerasFound,
    CameraError,
}

/// The mathematical content of a [`Progress`].
pub enum Outcome {
    Call(CameraCall),
    Opened,
    Filled(Seq<u8>),
    Failed { kind: CaptureFault, message: Seq<char>, release: bool },
}

impl CaptureError {
    /// The kind of this error.
    pub open spec fn kind(&self) -> CaptureFault {
        match self {
            CaptureError::NotReady => CaptureFault::NotReady,
            CaptureError::NoBuffer => CaptureFault::NoBuffer,
            CaptureError::NoCamerasFound => CaptureFault::NoCamerasFound,
            CaptureError::CameraError(_) => CaptureFault::CameraError,
        }
    }

    /// The message this error carries; empty where the kind carries none.
    pub open spec fn message(&self) -> Seq<char> {
        match self {
            CaptureError::CameraError(m) => m@,
            _ => Seq::empty(),
        }
    }
}

impl View for Progress {
    type V = Outcome;

    open spec fn view(&self) -> Outcome {
        match self {
            Progress::Call(c) => Outcome::Call(*c),
            Progress::Opened => Outcome::Opened,
            Progress::Filled(data) => Outcome::Filled(data@),
            Progress::Failed { error, release } => Outcome::Failed {
                kind: error.kind(),
                message: error.message(),
                release: *release,
            },
        }
    }
}

/// The call that follows a call of the set-up chain; nothing after the last.
pub open spec fn following(call: CameraCall) -> Option<CameraCall> {
    match call {
        CameraCall::QueryInfo => Some(CameraCall::CreateCamera),
        CameraCall::CreateCamera => Some(CameraCall::SetCameraNum),
        CameraCall::SetCameraNum => Some(CameraCall::CreateEncoder),
        CameraCall::CreateEncoder => Some(CameraCall::EnableControlPort),
        CameraCall::EnableControlPort => Some(CameraCall::SetCameraParams),
        CameraCall::SetCameraParams => Some(CameraCall::SetCameraFormat),
        CameraCall::SetCameraFormat => Some(CameraCall::Enable),
        CameraCall::Enable => Some(CameraCall::CreatePool),
        CameraCall::CreatePool => Some(CameraCall::CreatePreview),
        CameraCall::CreatePreview => Some(CameraCall::ConnectPreview),
        CameraCall::ConnectPreview => Some(CameraCall::EnablePreview),
        _ => None,
    }
}

/// The message for a picture that does not have the size of the destination.
pub open spec fn size_message(required: int, actual: int) -> Seq<char> {
    "required size "@ + decimal_text(required) + " != data size "@ + decimal_text(actual)
}

/// The mathematical content of a [`Capture`], settings aside.
pub struct CaptureState {
    pub phase: Phase,
    /// The call outstanding while opening or reading.
    pub pending: CameraCall,
    /// Whether the camera object exists.
    pub camera: bool,
    /// Length of the destination of the read under way.
    pub target_len: usize,
}

impl CaptureState {
    /// A session that has set up nothing.
    pub open spec fn created() -> CaptureState {
        CaptureState {
            phase: Phase::Created,
            pending: CameraCall::QueryInfo,
            camera: false,
            target_len: 0,
        }
    }

    /// The answer to an operation that the session's phase does not allow.
    pub open spec fn refused(self) -> (CaptureState, Outcome) {
        (
            self,
            Outcome::Failed {
                kind: CaptureFault::NotReady,
                message: Seq::empty(),
                release: false,
            },
        )
    }

    /// Setting up fails: the camera object, if it exists, is dropped.
    pub open spec fn fail_open(self, kind: CaptureFault, message: Seq<char>) -> (
        CaptureState,
        Outcome,
    ) {
        (
            CaptureState { phase: Phase::Failed, camera: false, ..self },
            Outcome::Failed { kind, message, release: self.camera },
        )
    }

    /// A read fails: the session keeps its camera and is ready again.
    pub open spec fn fail_read(self, kind: CaptureFault, message: Seq<char>) -> (
        CaptureState,
        Outcome,
    ) {
        (
            CaptureState { phase: Phase::Ready, ..self },
            Outcome::Failed { kind, message, release: false },
        )
    }

    /// The session asks for a call.
    pub open spec fn ask(self, call: CameraCall) -> (CaptureState, Outcome) {
        (CaptureState { pending: call, ..self }, Outcome::Call(call))
    }

    /// The start of the set-up.
    pub open spec fn init(self) -> (CaptureState, Outcome) {
        if self.phase == Phase::Created {
            CaptureState { phase: Phase::Opening, ..self }.ask(CameraCall::QueryInfo)
        } else {
            self.refused()
        }
    }

    /// The start of a read into a destination of `len` bytes.
    pub open spec fn read(self, len: usize) -> (CaptureState, Outcome) {
        if self.phase == Phase::Ready && self.camera {
            CaptureState { phase: Phase::Reading, target_len: len, ..self }.ask(CameraCall::Take)
        } else {
            self.refused()
        }
    }

    /// One step of the set-up. A board without a camera fails it with
    /// `NoCamerasFound`, an error of the library with `CameraError`; the
    /// camera object exists from the success of `CreateCamera` on. A reply that
    /// does not answer the outstanding call changes nothing.
    pub open spec fn open_step(self, reply: CameraReply) -> (CaptureState, Outcome) {
        let again = (self, Outcome::Call(self.pending));
        match reply {
            CameraReply::Info(info) => if self.pending != CameraCall::QueryInfo {
                again
            } else {
                match info {
                    Ok(cameras) => if cameras < 1 {
                        self.fail_open(CaptureFault::NoCamerasFound, Seq::empty())
                    } else {
                        self.ask(CameraCall::CreateCamera)
                    },
                    Err(message) => self.fail_open(CaptureFault::CameraError, message@),
                }
            },
            CameraReply::Done(result) => if self.pending == CameraCall::QueryInfo {
                again
            } else {
                match result {
                    Err(message) => self.fail_open(CaptureFault::CameraError, message@),
                    Ok(_) => {
                        let made = CaptureState {
                            camera: self.camera || self.pending == CameraCall::CreateCamera,
                            ..self
                        };
                        match following(self.pending) {
                            Some(call) => made.ask(call),
                            None => (
                                CaptureState { phase: Phase::Ready, ..made },
                                Outcome::Opened,
                            ),
                        }
                    },
                }
            },
            CameraReply::Received(_) => again,
        }
    }

    /// One step of a read. A camera that sends no buffer fails it with
    /// `NoBuffer`; a picture of another length than the destination is refused.
    pub open spec fn read_step(self, reply: CameraReply) -> (CaptureState, Outcome) {
        let again = (self, Outcome::Call(self.pending));
        match reply {
            CameraReply::Done(result) => if self.pending != CameraCall::Take {
                again
            } else {
                match result {
                    Ok(_) => self.ask(CameraCall::Receive),
                    Err(message) => self.fail_read(CaptureFault::CameraError, message@),
                }
            },
            CameraReply::Received(result) => if self.pending != CameraCall::Receive {
                again
            } else {
                match result {
                    Err(message) => self.fail_read(CaptureFault::CameraError, message@),
                    Ok(None) => self.fail_read(CaptureFault::NoBuffer, Seq::empty()),
                    Ok(Some(data)) => if data@.len() == self.target_len {
                        (CaptureState { phase: Phase::Ready, ..self }, Outcome::Filled(data@))
                    } else {
                        self.fail_read(
                            CaptureFault::CameraError,
                            size_message(self.target_len as int, data@.len() as int),
                        )
                    },
                }
            },
            CameraReply::Info(_) => again,
        }
    }

    /// The state and the answer after `reply`.
    pub open spec fn step(self, reply: CameraReply) -> (CaptureState, Outcome) {
        match self.phase {
            Phase::Opening => self.open_step(reply),
            Phase::Reading => self.read_step(reply),
            _ => self.refused(),
        }
    }

    /// The states that a session can be in: the camera object exists once the
    /// set-up has made it, and not before or after a failure.
    pub open spec fn wf(self) -> bool {
        &&& match self.phase {
            Phase::Created | Phase::Failed => !self.camera,
            Phase::Opening => following(self.pending) is Some || self.pending
                == CameraCall::EnablePreview,
            Phase::Ready => self.camera,
            Phase::Reading => self.camera && (self.pending == CameraCall::Take || self.pending
                == CameraCall::Receive),
        }
        &&& (self.phase == Phase::Opening ==> (self.camera <==> self.pending
            != CameraCall::QueryInfo && self.pending != CameraCall::CreateCamera))
    }
}

/// Every operation leads from a valid state to a valid state; a failed set-up
/// leaves no camera object behind and tells the driver to drop the one there
/// was; the camera object is made once only.
pub proof fn law_camera_is_accounted_for(c: CaptureState, reply: CameraReply, len: usize)
    requires
        c.wf(),
    ensures
        CaptureState::created().wf(),
        c.init().0.wf(),
        c.read(len).0.wf(),
        c.step(reply).0.wf(),
        c.camera && !c.step(reply).0.camera ==> (c.step(reply).1 matches Outcome::Failed {
            release,
            ..
        } && release),
        !c.camera && c.step(reply).0.camera ==> c.phase == Phase::Opening && c.pending
            == CameraCall::CreateCamera,
        (c.step(reply).1 matches Outcome::Failed { release, .. } && release) ==> c.camera
            && !c.step(reply).0.camera,
{
}

/// A capture session on the board's camera.
pub struct Capture {
    settings: CaptureSettings,
    phase: Phase,
    pending: CameraCall,
    camera: bool,
    target_len: usize,
}

impl View for Capture {
    type V = CaptureState;

    closed spec fn view(&self) -> CaptureState {
        CaptureState {
            phase: self.phase,
            pending: self.pending,
            camera: self.camera,
            target_len: self.target_len,
        }
    }
}

impl Capture {
    /// The settings that the session was made with.
    pub closed spec fn spec_settings(&self) -> CaptureSettings {
        self.settings
    }

    /// The settings that the session was made with.
    pub fn settings(&self) -> (r: &CaptureSettings)
        ensures
            *r == self.spec_settings(),
    {
        &self.settings
    }

    /// A session at the resolution of `settings`; nothing is set up yet.
    pub fn new(settings: CaptureSettings) -> (r: Capture)
        ensures
            r@ == CaptureState::created(),
            r.spec_settings() == settings,
    {
        Capture {
            settings,
            phase: Phase::Created,
            pending: CameraCall::QueryInfo,
            camera: false,
            target_len: 0,
        }
    }

    /// Where the session stands.
    pub fn phase(&self) -> (r: Phase)
        ensures
            r == self@.phase,
    {
        self.phase
    }

    /// The size of the destination buffer of a read: three bytes per pixel, or
    /// nothing where that size does not fit a `usize`.
    pub fn get_buffer_size(&self) -> (r: Result<usize, CaptureError>)
        ensures
            match r {
                Ok(size) => size == packed_len(
                    self.spec_settings().resolution.0,
                    self.spec_settings().resolution.1,
                ),
                Err(e) => packed_len(
                    self.spec_settings().resolution.0,
                    self.spec_settings().resolution.1,
                ) > usize::MAX && e.kind() == CaptureFault::CameraError && e.message()
                    == "resolution does not fit a pixel buffer"@,
            },
    {
        let width = self.settings.resolution.0 as u128;
        let height = self.settings.resolution.1 as u128;
        assert(width * height * 3 <= 0xffff_ffff * 0xffff_ffff * 3) by (nonlinear_arith)
            requires
                width <= 0xffff_ffff,
                height <= 0xffff_ffff,
        ;
        let size: u128 = width * height * 3;
        if size <= usize::MAX as u128 {
            Ok(size as usize)
        } else {
            Err(CaptureError::CameraError(String::from_str("resolution does not fit a pixel buffer")))
        }
    }

    fn refuse(&self) -> (r: Progress)
        ensures
            (self@, r@) == self@.refused(),
    {
        Progress::Failed { error: CaptureError::NotReady, release: false }
    }

    fn fail_open(&mut self, error: CaptureError) -> (r: Progress)
        ensures
            (final(self)@, r@) == old(self)@.fail_open(error.kind(), error.message()),
            final(self).spec_settings() == old(self).spec_settings(),
    {
        let release = self.camera;
        self.phase = Phase::Failed;
        self.camera = false;
        Progress::Failed { error, release }
    }

    fn fail_read(&mut self, error: CaptureError) -> (r: Progress)
        ensures
            (final(self)@, r@) == old(self)@.fail_read(error.kind(), error.message()),
            final(self).spec_settings() == old(self).spec_settings(),
    {
        self.phase = Phase::Ready;
        Progress::Failed { error, release: false }
    }

    fn ask(&mut self, call: CameraCall) -> (r: Progress)
        ensures
            (final(self)@, r@) == old(self)@.ask(call),
            final(self).spec_settings() == old(self).spec_settings(),
    {
        self.pending = call;
        Progress::Call(call)
    }

    /// Starts the set-up. Only a new session can be set up.
    pub fn init(&mut self) -> (r: Progress)
        ensures
            (final(self)@, r@) == old(self)@.init(),
            final(self).spec_settings() == old(self).spec_settings(),
    {
        if self.phase == Phase::Created {
            self.phase = Phase::Opening;
            self.ask(CameraCall::QueryInfo)
        } else {
            self.refuse()
        }
    }

    /// Ends the session: answers whether the driver has a camera object to drop.
    pub fn shutdown(self) -> (r: bool)
        ensures
            r == self@.camera,
    {
        self.camera
    }

    /// Starts a read into a destination of `len` bytes.
    pub fn read(&mut self, len: usize) -> (r: Progress)
        ensures
            (final(self)@, r@) == old(self)@.read(len),
            final(self).spec_settings() == old(self).spec_settings(),
    {
        if self.phase == Phase::Ready && self.camera {
            self.phase = Phase::Reading;
            self.target_len = len;
            self.ask(CameraCall::Take)
        } else {
            self.refuse()
        }
    }

    /// The call that follows a call of the set-up chain.
    fn next_call(call: CameraCall) -> (r: Option<CameraCall>)
        ensures
            r == following(call),
    {
        match call {
            CameraCall::QueryInfo => Some(CameraCall::CreateCamera),
            CameraCall::CreateCamera => Some(CameraCall::SetCameraNum),
            CameraCall::SetCameraNum => Some(CameraCall::CreateEncoder),
            CameraCall::CreateEncoder => Some(CameraCall::EnableControlPort),
            CameraCall::EnableControlPort => Some(CameraCall::SetCameraParams),
            CameraCall::SetCameraParams => Some(CameraCall::SetCameraFormat),
            CameraCall::SetCameraFormat => Some(CameraCall::Enable),
            CameraCall::Enable => Some(CameraCall::CreatePool),
            CameraCall::CreatePool => Some(CameraCall::CreatePreview),
            CameraCall::CreatePreview => Some(CameraCall::ConnectPreview),
            CameraCall::ConnectPreview => Some(CameraCall::EnablePreview),
            _ => None,
        }
    }

    /// Takes the driver's report of the outstanding call and answers with what
    /// comes next.
    pub fn advance(&mut self, reply: CameraReply) -> (r: Progress)
        ensures
            (final(self)@, r@) == old(self)@.step(reply),
            final(self).spec_settings() == old(self).spec_settings(),
    {
        match self.phase {
            Phase::Opening => self.open_camera(reply),
            Phase::Reading => self.receive(reply),
            _ => self.refuse(),
        }
    }

    /// One step of the set-up.
    fn open_camera(&mut self, reply: CameraReply) -> (r: Progress)
        ensures
            (final(self)@, r@) == old(self)@.open_step(reply),
            final(self).spec_settings() == old(self).spec_settings(),
    {
        let first = self.pending == CameraCall::QueryInfo;
        match reply {
            CameraReply::Info(info) => {
                if !first {
                    return Progress::Call(self.pending);
                }
                match info {
                    Ok(cameras) => {
                        if cameras < 1 {
                            self.fail_open(CaptureError::NoCamerasFound)
                        } else {
                            self.ask(CameraCall::CreateCamera)
                        }
                    },
                    Err(message) => self.fail_open(CaptureError::CameraError(message)),
                }
            },
            CameraReply::Done(result) => {
                if first {
                    return Progress::Call(self.pending);
                }
                match result {
                    Err(message) => self.fail_open(CaptureError::CameraError(message)),
                    Ok(_) => {
                        if self.pending == CameraCall::CreateCamera {
                            self.camera = true;
                        }
                        match Capture::next_call(self.pending) {
                            Some(call) => self.ask(call),
                            None => {
                                self.phase = Phase::Ready;
                                Progress::Opened
                            },
                        }
                    },
                }
            },
            CameraReply::Received(_) => Progress::Call(self.pending),
        }
    }

    /// One step of a read.
    fn receive(&mut self, reply: CameraReply) -> (r: Progress)
        ensures
            (final(self)@, r@) == old(self)@.read_step(reply),
            final(self).spec_settings() == old(self).spec_settings(),
    {
        match reply {
            CameraReply::Done(result) => {
                if self.pending != CameraCall::Take {
                    return Progress::Call(self.pending);
                }
                match result {
                    Ok(_) => self.ask(CameraCall::Receive),
                    Err(message) => self.fail_read(CaptureError::CameraError(message)),
                }
            },
            CameraReply::Received(result) => {
                if self.pending != CameraCall::Receive {
                    return Progress::Call(self.pending);
                }
                match result {
                    Err(message) => self.fail_read(CaptureError::CameraError(message)),
                    Ok(None) => self.fail_read(CaptureError::NoBuffer),
                    Ok(Some(data)) => {
                        if data.len() == self.target_len {
                            self.phase = Phase::Ready;
                            Progress::Filled(data)
                        } else {
                            let mut message = String::from_str("required size ");
                            message.append(decimal_i128(self.target_len as i128).as_str());
                            message.append(" != data size ");
                            message.append(decimal_i128(data.len() as i128).as_str());
                            self.fail_read(CaptureError::CameraError(message))
                        }
                    },
                }
            },
            CameraReply::Info(_) => Progress::Call(self.pending),
        }
    }
}

} // verus!
