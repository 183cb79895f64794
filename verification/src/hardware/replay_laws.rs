//! What holds of every replay: in which order the files are served, and when
//! the sequence ends.

use super::mock_camera::{cursor_after, next_index, MockState};
use super::protocol::{Lifecycle, StepView};
use vstd::prelude::*;

verus! {

/// A replay that does not repeat serves its files once, in order: the call
/// after `calls` earlier ones serves the file of that index while there is one,
/// and fails from then on, exactly when the sequence is exhausted.
pub proof fn law_replay_ends_when_exhausted(count: int, calls: nat)
    requires
        0 <= count,
    ensures
        cursor_after(0, count, false, calls) == if calls < count {
            calls as int
        } else {
            count
        },
        next_index(cursor_after(0, count, false, calls), count, false) == if calls < count {
            Some(calls as int)
        } else {
            None
        },
    decreases calls,
{
    if calls > 0 {
        law_replay_ends_when_exhausted(count, (calls - 1) as nat);
    }
}

/// A replay that repeats never ends: the call after `calls` earlier ones
/// serves the file of index `calls` modulo the number of files, so that the
/// first file follows the last.
pub proof fn law_replay_wraps_around(count: int, calls: nat)
    requires
        0 < count,
    ensures
        1 <= cursor_after(0, count, true, calls) <= count || calls == 0,
        next_index(cursor_after(0, count, true, calls), count, true) == Some(calls as int % count),
        calls > 0 ==> cursor_after(0, count, true, calls) == (calls - 1) % count + 1,
    decreases calls,
{
    if calls == 0 {
        assert(0int % count == 0) by (nonlinear_arith)
            requires
                0 < count,
        ;
    } else {
        let before = (calls - 1) as nat;
        law_replay_wraps_around(count, before);
        let k = calls as int;
        assert((k - 1) % count + 1 == count ==> k % count == 0) by (nonlinear_arith)
            requires
                0 < count,
                k >= 1,
        ;
        assert((k - 1) % count + 1 < count ==> k % count == (k - 1) % count + 1)
            by (nonlinear_arith)
            requires
                0 < count,
                k >= 1,
        ;
        assert(0 <= (k - 1) % count < count) by (nonlinear_arith)
            requires
                0 < count,
                k >= 1,
        ;
    }
}

/// An initialization that is refused keeps nothing of the configuration it
/// was given: whether the folder is missing or cannot be read, the camera's
/// files, cursor and repeat flag are what they were before `initialize`, and
/// the camera is failed.
pub proof fn law_refused_initialization_keeps_nothing(
    before: MockState,
    config: Map<Seq<char>, Seq<char>>,
    present: bool,
    names: Result<Vec<String>, String>,
    after: MockState,
    step: StepView,
)
    requires
        before.wf(),
        before.lifecycle == Lifecycle::Uninitialized,
        before.initialize(config).0.listed(present, names, after, step),
        !present || names is Err,
    ensures
        step is Failed,
        after == (MockState { lifecycle: Lifecycle::Failed, ..before }),
        after.frames == before.frames,
        after.cursor == before.cursor,
        after.repeat == before.repeat,
        after.wf(),
{
}

} // verus!
