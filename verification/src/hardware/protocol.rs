//! What a camera and its driver say to each other, and the lifecycle that
//! every camera keeps to.

use super::error::{HardwareError, HardwareFault};
use crate::capture::session::{NativeCall, NativeReply, Resource};
use crate::resources::config_map::ConfigMap;
use vstd::prelude::*;

verus! {

/// Where a camera session stands in its life.
#[derive(Debug, Clone, Copy, PartialEq, Eq, Structural)]
pub enum Lifecycle {
    /// Made, never initialized.
    Uninitialized,
    /// `initialize` is under way; a request is outstanding.
    Initializing,
    /// Initialized; frames can be asked for.
    Ready,
    /// `next` is under way; a request is outstanding.
    Streaming,
    /// `initialize` failed; whatever it had acquired was handed back.
    Failed,
    /// Shut down. Nothing can be done with the session any more.
    Closed,
}

/// The operations of a camera session.
#[derive(Debug, Clone, Copy, PartialEq, Eq, Structural)]
pub enum Operation {
    Initialize,
    Next,
    Resume,
    Shutdown,
}

/// What a camera asks of its driver.
pub enum Request {
    /// Make this call into the decoding library.
    Native(NativeCall),
    /// Report whether this folder exists and the names of the files in it.
    ListFolder(String),
    /// Decode the image file at this path into packed RGB bytes.
    DecodeFile(String),
}

/// The mathematical content of a [`Request`].
pub enum RequestView {
    Native(NativeCall),
    ListFolder(Seq<char>),
    DecodeFile(Seq<char>),
}

impl View for Request {
    type V = RequestView;

    open spec fn view(&self) -> RequestView {
        match self {
            Request::Native(call) => RequestView::Native(*call),
            Request::ListFolder(path) => RequestView::ListFolder(path@),
            Request::DecodeFile(path) => RequestView::DecodeFile(path@),
        }
    }
}

/// A decoded image file: its size and its packed RGB bytes.
pub struct DecodedImage {
    pub width: u32,
    pub height: u32,
    pub data: Vec<u8>,
}

/// Why an image file could not be decoded.
pub enum DecodeError {
    /// The file could not be opened or read; the message is the system's.
    Io(String),
    /// The contents are no image; the message is the image library's.
    Image(String),
}

/// What the driver reports of a request.
pub enum Response {
    /// Answers `Request::Native`.
    Native(NativeReply),
    /// Answers `Request::ListFolder`: whether the folder exists, and the
    /// names in it or the system's message.
    Listing { present: bool, names: Result<Vec<String>, String> },
    /// Answers `Request::DecodeFile`.
    Decoded(Result<DecodedImage, DecodeError>),
}

/// What a camera answers to an operation.
pub enum Step {
    /// Carry out this request and report back through `resume`.
    Perform(Request),
    /// The camera is initialized.
    Ready,
    /// A frame is there; the camera's `frame` hands it out.
    Frame,
    /// The operation failed. The driver releases `release`, in this order.
    Failed { error: HardwareError, release: Vec<Resource> },
}

/// The mathematical content of a [`Step`].
pub enum StepView {
    Perform(RequestView),
    Ready,
    Frame,
    Failed { kind: HardwareFault, message: Seq<char>, release: Seq<Resource> },
}

impl View for Step {
    type V = StepView;

    open spec fn view(&self) -> StepView {
        match self {
            Step::Perform(request) => StepView::Perform(request@),
            Step::Ready => StepView::Ready,
            Step::Frame => StepView::Frame,
            Step::Failed { error, release } => StepView::Failed {
                kind: error.kind(),
                message: error.message(),
                release: release@,
            },
        }
    }
}

/// The answer to an operation that the lifecycle does not allow.
pub open spec fn not_ready() -> StepView {
    StepView::Failed {
        kind: HardwareFault::NotReady,
        message: Seq::empty(),
        release: Seq::empty(),
    }
}

/// Whether the lifecycle allows an operation: `initialize` once, on a new
/// session; `next` on a ready one; `resume` while a request is outstanding;
/// `shutdown` any time before the session is closed.
pub open spec fn allowed(operation: Operation, before: Lifecycle) -> bool {
    match operation {
        Operation::Initialize => before == Lifecycle::Uninitialized,
        Operation::Next => before == Lifecycle::Ready,
        Operation::Resume => before == Lifecycle::Initializing || before == Lifecycle::Streaming,
        Operation::Shutdown => before != Lifecycle::Closed,
    }
}

/// The lifecycle that every camera keeps to, for `initialize`, `next` and
/// `resume`. An operation that is not allowed answers `NotReady` and changes
/// nothing. Initializing ends ready or failed; a failed `next` leaves the
/// session ready and asks for no release; a frame is only ever answered by a
/// session that is ready afterwards.
pub open spec fn step_follows(
    operation: Operation,
    before: Lifecycle,
    after: Lifecycle,
    step: StepView,
) -> bool {
    if !allowed(operation, before) {
        after == before && step == not_ready()
    } else if before == Lifecycle::Uninitialized || before == Lifecycle::Initializing {
        match step {
            StepView::Perform(_) => after == Lifecycle::Initializing,
            StepView::Ready => after == Lifecycle::Ready,
            StepView::Failed { .. } => after == Lifecycle::Failed,
            StepView::Frame => false,
        }
    } else {
        match step {
            StepView::Perform(_) => after == Lifecycle::Streaming,
            StepView::Frame => after == Lifecycle::Ready,
            StepView::Failed { release, .. } => after == Lifecycle::Ready && release.len() == 0,
            StepView::Ready => false,
        }
    }
}

/// The interface of every camera backend.
pub trait CameraLike {
    /// Where the session stands.
    spec fn lifecycle(&self) -> Lifecycle;

    /// Whether the session is in one of the states that its operations lead to.
    spec fn wf(&self) -> bool;

    /// Starts to initialize the device from `config`.
    fn initialize(&mut self, config: ConfigMap) -> (step: Step)
        requires
            old(self).wf(),
        ensures
            final(self).wf(),
            step_follows(
                Operation::Initialize,
                old(self).lifecycle(),
                final(self).lifecycle(),
                step@,
            ),
    ;

    /// Stops streaming and closes the session. Answers the native resources
    /// that the driver must release, in order; `NotReady` where the session
    /// was closed already.
    fn shutdown(&mut self) -> (r: Result<Vec<Resource>, HardwareError>)
        requires
            old(self).wf(),
        ensures
            final(self).wf(),
            final(self).lifecycle() == Lifecycle::Closed,
            old(self).lifecycle() == Lifecycle::Closed <==> r is Err,
            r matches Err(e) ==> e.kind() == HardwareFault::NotReady,
    ;

    /// Starts to fetch the next frame.
    fn next(&mut self) -> (step: Step)
        requires
            old(self).wf(),
        ensures
            final(self).wf(),
            step_follows(Operation::Next, old(self).lifecycle(), final(self).lifecycle(), step@),
    ;

    /// Takes the driver's report of the outstanding request.
    fn resume(&mut self, response: Response) -> (step: Step)
        requires
            old(self).wf(),
        ensures
            final(self).wf(),
            step_follows(Operation::Resume, old(self).lifecycle(), final(self).lifecycle(), step@),
    ;
}

} // verus!
