//! What holds of every camera session, whatever its backend.

use super::ffmpeg_camera::AvState;
use super::protocol::{allowed, not_ready, step_follows, Lifecycle, Operation, StepView};
use crate::capture::laws::lemma_release_order;
use crate::capture::session::{Handle, Resource};
use vstd::prelude::*;

verus! {

/// A closed session is closed for good: no operation is allowed on it, each
/// answers `NotReady`, and the session stays closed.
pub proof fn law_closed_is_terminal(operation: Operation, after: Lifecycle, step: StepView)
    requires
        operation != Operation::Shutdown,
        step_follows(operation, Lifecycle::Closed, after, step),
    ensures
        !allowed(operation, Lifecycle::Closed),
        !allowed(Operation::Shutdown, Lifecycle::Closed),
        after == Lifecycle::Closed,
        step == not_ready(),
{
}

/// Frames are only asked for and delivered between a successful
/// initialization and the shutdown: `next` is allowed on a ready session only,
/// and a step that delivers a frame leaves the session ready.
pub proof fn law_frames_need_a_ready_session(
    operation: Operation,
    before: Lifecycle,
    after: Lifecycle,
    step: StepView,
)
    requires
        operation != Operation::Shutdown,
        step_follows(operation, before, after, step),
        step is Frame,
    ensures
        before == Lifecycle::Ready || before == Lifecycle::Streaming,
        after == Lifecycle::Ready,
        operation == Operation::Next || operation == Operation::Resume,
{
}

/// Shutting a hardware camera down hands out exactly the native objects that
/// its capture session holds, each once, and leaves none behind. After a
/// failed initialization there is nothing left to hand out: the failure has
/// handed it out already.
pub proof fn law_shutdown_releases_what_is_held(camera: AvState, resource: Resource)
    requires
        camera.wf(),
    ensures
        camera.release().contains(resource) <==> (camera.capture matches Some(c) && c.handle(
            resource,
        ) == Handle::Live),
        camera.release().no_duplicates(),
        camera.closed().capture is None,
        camera.closed().release().len() == 0,
        camera.lifecycle == Lifecycle::Failed || camera.lifecycle == Lifecycle::Uninitialized
            || camera.lifecycle == Lifecycle::Closed ==> camera.release().len() == 0,
{
    match camera.capture {
        Some(c) => {
            lemma_release_order(c, resource);
        },
        None => {},
    }
}

} // verus!
