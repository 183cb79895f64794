//! What holds of every run, whatever its driver reports.

use super::controller::{counted, RunAction, RunEvent, RunState, Stage};
use vstd::prelude::*;

verus! {

/// The state of a run after a sequence of events.
pub open spec fn after(run: RunState, events: Seq<RunEvent>) -> RunState
    decreases events.len(),
{
    if events.len() == 0 {
        run
    } else {
        after(run.step(events[0]).0, events.drop_first())
    }
}

/// How far a stage is into a run: the stages of the sampling loop count alike.
pub open spec fn progress(stage: Stage) -> int {
    match stage {
        Stage::Idle => 0,
        Stage::Initializing => 1,
        Stage::Syncing => 2,
        Stage::Locking => 3,
        Stage::AwaitingTick => 4,
        Stage::Capturing => 4,
        Stage::Persisting => 4,
        Stage::CheckingFlag => 4,
        Stage::ShuttingDown => 5,
        Stage::Finished => 6,
    }
}

impl RunState {
    /// The states that a run can be in: the camera is open from its
    /// initialization to the end; it has been told to shut down once the
    /// teardown has begun, and not before; a run that failed to open its
    /// camera never tells it to shut down.
    pub open spec fn wf(self) -> bool {
        &&& (progress(self.stage) <= 1 ==> !self.opened)
        &&& (2 <= progress(self.stage) <= 5 ==> self.opened)
        &&& (progress(self.stage) <= 4 ==> self.shutdowns == 0 && self.failure is None)
        &&& (self.stage == Stage::ShuttingDown ==> self.shutdowns == 1)
        &&& (self.stage == Stage::Finished ==> self.shutdowns == if self.opened {
            1u64
        } else {
            0u64
        })
        &&& (self.stage == Stage::Finished && !self.opened ==> self.failure is Some)
    }
}

/// A run never goes back, and stays valid.
pub proof fn law_run_moves_forward(run: RunState, event: RunEvent)
    requires
        run.wf(),
    ensures
        run.step(event).0.wf(),
        progress(run.step(event).0.stage) >= progress(run.stage),
        run.step(event).0.use_ntp == run.use_ntp,
        run.step(event).0.completed >= run.completed,
{
}

/// The camera is shut down exactly once on the way out of every run that
/// opened it, whether the run ends by itself, by the removal of the marker or
/// by a failure; a run that could not open its camera ends without a shutdown,
/// and with that failure.
pub proof fn law_shutdown_exactly_once(use_ntp: bool, events: Seq<RunEvent>)
    ensures
        after(RunState::created(use_ntp), events).shutdowns <= 1,
        after(RunState::created(use_ntp), events).stage == Stage::Finished ==> after(
            RunState::created(use_ntp),
            events,
        ).shutdowns == if after(RunState::created(use_ntp), events).opened {
            1u64
        } else {
            0u64
        },
        after(RunState::created(use_ntp), events).wf(),
{
    lemma_after_valid(RunState::created(use_ntp), events);
}

/// Validity carries over any sequence of events.
pub proof fn lemma_after_valid(run: RunState, events: Seq<RunEvent>)
    requires
        run.wf(),
    ensures
        after(run, events).wf(),
        after(run, events).completed >= run.completed,
        progress(after(run, events).stage) >= progress(run.stage),
    decreases events.len(),
{
    if events.len() > 0 {
        law_run_moves_forward(run, events[0]);
        lemma_after_valid(run.step(events[0]).0, events.drop_first());
    }
}

/// The marker is looked for once for each completed sample and at no other
/// time: the check is named exactly when a frame has been persisted, and its
/// answer decides between the next tick and the teardown. A frame is handed to
/// persistence only after the camera delivered it, and a failed capture leads
/// to the teardown, never to persistence.
pub proof fn law_flag_checked_per_sample(run: RunState, event: RunEvent)
    requires
        run.wf(),
    ensures
        run.step(event).1 == RunAction::CheckFlag && run.step(event).0 != run ==> run.stage
            == Stage::Persisting && (event matches RunEvent::Persisted(Ok(_)))
            && run.step(event).0.completed == counted(run.completed),
        run.step(event).0.completed != run.completed ==> run.step(event).1 == RunAction::CheckFlag,
        run.stage == Stage::CheckingFlag ==> (match event {
            RunEvent::Flag { present } => run.step(event).1 == if present {
                RunAction::PullTick
            } else {
                RunAction::ShutdownCamera
            },
            _ => run.step(event) == (run, RunAction::CheckFlag),
        }),
        run.stage != Stage::CheckingFlag && (event is Flag) ==> run.step(event).0 == run,
        run.step(event).1 == RunAction::PersistFrame && run.step(event).0 != run ==> run.stage
            == Stage::Capturing && (event matches RunEvent::Captured(Ok(_))),
        run.stage == Stage::Capturing && (event matches RunEvent::Captured(Err(_)))
            ==> run.step(event).1 == RunAction::ShutdownCamera,
{
}

/// Once the teardown has begun the run samples no more: no tick is pulled, no
/// frame captured or persisted, and the count of completed samples stands.
pub proof fn law_no_sample_after_teardown(run: RunState, events: Seq<RunEvent>)
    requires
        run.wf(),
        progress(run.stage) >= 5,
    ensures
        after(run, events).completed == run.completed,
        progress(after(run, events).stage) >= 5,
    decreases events.len(),
{
    if events.len() > 0 {
        law_run_moves_forward(run, events[0]);
        law_no_sample_after_teardown(run.step(events[0]).0, events.drop_first());
    }
}

} // verus!
