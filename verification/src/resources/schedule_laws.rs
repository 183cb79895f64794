//! What holds of every run of the scheduler, whatever the clock reads.

use super::time_probe::{ProbeState, SnapshotView, TickView, TimeProbeConfig};
use vstd::prelude::*;

verus! {

/// The state of a probe after it was polled at each of `readings` in turn.
pub open spec fn after(p: ProbeState, readings: Seq<u64>) -> ProbeState
    decreases readings.len(),
{
    if readings.len() == 0 {
        p
    } else {
        after(p.poll(readings[0]).0, readings.drop_first())
    }
}

/// The samples that a probe emits when it is polled at each of `readings` in turn.
pub open spec fn emitted(p: ProbeState, readings: Seq<u64>) -> Seq<SnapshotView>
    decreases readings.len(),
{
    if readings.len() == 0 {
        Seq::empty()
    } else {
        let rest = emitted(p.poll(readings[0]).0, readings.drop_first());
        match p.poll(readings[0]).1 {
            TickView::Sample(s) => seq![s] + rest,
            _ => rest,
        }
    }
}

/// The elapsed time that the `k`-th sample of a run must exceed by more than
/// the interval: that of the sample before it, or `floor` for the first.
pub open spec fn previous_elapsed(samples: Seq<SnapshotView>, floor: int, k: int) -> int {
    if k == 0 {
        floor
    } else {
        samples[k - 1].elapsed
    }
}

/// A probe that has emitted all its samples stays finished and emits nothing,
/// at any reading of the clock.
pub proof fn law_finished_is_final(p: ProbeState, now: u64)
    requires
        p.finished(),
    ensures
        p.poll(now) == (p, TickView::Finished),
{
}

/// A probe that is not finished emits a sample exactly when more scaled time
/// than the interval has passed since the latest sample (or the start); the
/// sample's elapsed time is the scaled time since the start, its timestamp the
/// reference plus that; otherwise the probe asks for its idle time.
pub proof fn law_sample_when_due(p: ProbeState, now: u64)
    requires
        p.wf(),
        !p.finished(),
    ensures
        p.waited(now) > p.interval ==> p.poll(now).1 == TickView::Sample(
            p.snapshot(p.elapsed_at(now)),
        ) && p.poll(now).0.sampled == p.counted() && p.poll(now).0.last == now,
        p.waited(now) <= p.interval ==> p.poll(now) == (p, TickView::Idle(p.idle)),
        p.poll(now).0.wf(),
{
}

/// Each sample of a run lies more than the interval after the one before it.
proof fn lemma_sample_gap(p: ProbeState, now: u64)
    requires
        p.wf(),
        p.waited(now) > p.interval,
    ensures
        p.elapsed_at(now) > p.elapsed_at(p.last) + p.interval,
        now > p.last,
{
    let scale = p.time_scale as int;
    let a = now as int - p.last as int;
    let b = p.last as int - p.moment as int;
    assert((a + b) * scale == a * scale + b * scale) by (nonlinear_arith);
}

/// What a run does, from any valid state: the state stays valid and keeps its
/// configuration and start; a bounded probe counts what it emits; every sample
/// lies more than the interval after the one before it, the first after the
/// latest sample before the run.
pub proof fn lemma_run(p: ProbeState, readings: Seq<u64>)
    requires
        p.wf(),
    ensures
        after(p, readings).wf(),
        after(p, readings).interval == p.interval,
        after(p, readings).samples == p.samples,
        after(p, readings).time_scale == p.time_scale,
        after(p, readings).moment == p.moment,
        p.samples >= 0 ==> emitted(p, readings).len() == after(p, readings).sampled - p.sampled,
        forall|k: int|
            0 <= k < emitted(p, readings).len() ==> (#[trigger] emitted(p, readings)[k]).elapsed
                > previous_elapsed(emitted(p, readings), p.elapsed_at(p.last), k) + p.interval,
        forall|k: int|
            0 <= k < emitted(p, readings).len() ==> (#[trigger] emitted(p, readings)[k]).elapsed
                >= p.elapsed_at(p.last) + (k + 1) * (p.interval + 1),
    decreases readings.len(),
{
    if readings.len() > 0 {
        let now = readings[0];
        let q = p.poll(now).0;
        let rest = emitted(q, readings.drop_first());
        let out = emitted(p, readings);
        let floor = p.elapsed_at(p.last);
        lemma_run(q, readings.drop_first());
        match p.poll(now).1 {
            TickView::Sample(s) => {
                lemma_sample_gap(p, now);
                assert(out =~= seq![s] + rest);
                assert(q.elapsed_at(q.last) == s.elapsed);
                assert forall|k: int| 0 <= k < out.len() implies (#[trigger] out[k]).elapsed
                    > previous_elapsed(out, floor, k) + p.interval && out[k].elapsed >= floor + (k
                    + 1) * (p.interval + 1) by {
                    if k > 0 {
                        assert(out[k] == rest[k - 1]);
                        assert(previous_elapsed(out, floor, k) == previous_elapsed(
                            rest,
                            s.elapsed,
                            k - 1,
                        ));
                        assert((k + 1) * (p.interval + 1) == k * (p.interval + 1) + (p.interval
                            + 1)) by (nonlinear_arith);
                    } else {
                        assert(1 * (p.interval + 1) == p.interval + 1) by (nonlinear_arith);
                    }
                }
            },
            _ => {
                assert(out =~= rest);
            },
        }
    }
}

/// A probe made for `N >= 0` samples yields at most `N` snapshots on any run,
/// has yielded exactly `N` when it reports that it is finished, and each
/// snapshot's elapsed time exceeds that of the one before it by more than the
/// interval, so the `k`-th (counted from one) lies beyond `k` intervals.
pub proof fn law_bounded_run(
    config: TimeProbeConfig,
    now: u64,
    epoch_seconds: i64,
    readings: Seq<u64>,
)
    requires
        config.samples >= 0,
    ensures
        emitted(ProbeState::started(config, now, epoch_seconds), readings).len() <= config.samples,
        after(ProbeState::started(config, now, epoch_seconds), readings).finished() <==> emitted(
            ProbeState::started(config, now, epoch_seconds),
            readings,
        ).len() == config.samples,
        forall|i: int, j: int|
            0 <= i < j < emitted(
                ProbeState::started(config, now, epoch_seconds),
                readings,
            ).len() ==> (#[trigger] emitted(
                ProbeState::started(config, now, epoch_seconds),
                readings,
            )[i]).elapsed < (#[trigger] emitted(
                ProbeState::started(config, now, epoch_seconds),
                readings,
            )[j]).elapsed,
        forall|k: int|
            0 <= k < emitted(
                ProbeState::started(config, now, epoch_seconds),
                readings,
            ).len() ==> (#[trigger] emitted(
                ProbeState::started(config, now, epoch_seconds),
                readings,
            )[k]).elapsed > (k + 1) * config.interval,
{
    let p = ProbeState::started(config, now, epoch_seconds);
    let out = emitted(p, readings);
    lemma_run(p, readings);
    assert(p.elapsed_at(p.last) == 0) by (nonlinear_arith)
        requires
            p.last == p.moment,
    ;
    assert forall|k: int| 0 <= k < out.len() implies (#[trigger] out[k]).elapsed > (k + 1)
        * config.interval by {
        assert((k + 1) * (config.interval + 1) == (k + 1) * config.interval + (k + 1))
            by (nonlinear_arith);
    }
    lemma_rising(out, 0, config.interval as int);
}

/// Samples that each exceed the one before by more than a non-negative
/// interval rise strictly.
proof fn lemma_rising(samples: Seq<SnapshotView>, floor: int, interval: int)
    requires
        interval >= 0,
        forall|k: int|
            0 <= k < samples.len() ==> (#[trigger] samples[k]).elapsed > previous_elapsed(
                samples,
                floor,
                k,
            ) + interval,
    ensures
        forall|i: int, j: int|
            0 <= i < j < samples.len() ==> (#[trigger] samples[i]).elapsed
                < (#[trigger] samples[j]).elapsed,
{
    assert forall|i: int, j: int| 0 <= i < j < samples.len() implies (#[trigger] samples[i]).elapsed
        < (#[trigger] samples[j]).elapsed by {
        lemma_rising_between(samples, floor, interval, i, j);
    }
}

proof fn lemma_rising_between(
    samples: Seq<SnapshotView>,
    floor: int,
    interval: int,
    i: int,
    j: int,
)
    requires
        interval >= 0,
        0 <= i < j < samples.len(),
        forall|k: int|
            0 <= k < samples.len() ==> (#[trigger] samples[k]).elapsed > previous_elapsed(
                samples,
                floor,
                k,
            ) + interval,
    ensures
        samples[i].elapsed < samples[j].elapsed,
    decreases j - i,
{
    assert(samples[j].elapsed > previous_elapsed(samples, floor, j) + interval);
    if j - 1 > i {
        lemma_rising_between(samples, floor, interval, i, j - 1);
    }
}

/// The same holds from any valid state on: whatever the clock reads, a run
/// emits its samples in strictly rising order of elapsed time.
pub proof fn law_elapsed_rises(p: ProbeState, readings: Seq<u64>)
    requires
        p.wf(),
    ensures
        forall|i: int, j: int|
            0 <= i < j < emitted(p, readings).len() ==> (#[trigger] emitted(
                p,
                readings,
            )[i]).elapsed < (#[trigger] emitted(p, readings)[j]).elapsed,
{
    lemma_run(p, readings);
    lemma_rising(emitted(p, readings), p.elapsed_at(p.last), p.interval as int);
}

/// Readings of a clock that is looked at `count` times, each time `step`
/// milliseconds after the time before, the first time `step` after `start`.
pub open spec fn steady(start: u64, step: int, count: nat) -> Seq<u64> {
    Seq::new(count, |k: int| (start + (k + 1) * step) as u64)
}

/// A probe whose clock advances by more than the interval between pollings
/// emits a sample at every polling, as long as it has samples left.
proof fn lemma_steady_run(p: ProbeState, count: nat)
    requires
        p.wf(),
        p.samples >= 0 ==> p.sampled + count <= p.samples,
        p.last + count * (p.interval + 1) <= u64::MAX,
    ensures
        emitted(p, steady(p.last, p.interval + 1, count)).len() == count,
    decreases count,
{
    let step = p.interval + 1;
    let readings = steady(p.last, step, count);
    if count > 0 {
        assert(count * step == (count - 1) * step + step) by (nonlinear_arith);
        assert((count - 1) * step >= 0) by (nonlinear_arith)
            requires
                count >= 1,
                step >= 1,
        ;
        let now = readings[0];
        assert(now == p.last + step) by (nonlinear_arith)
            requires
                now == (p.last + (0 + 1) * step) as u64,
                p.last + step <= u64::MAX,
                step >= 0,
        ;
        assert(step * p.time_scale >= step) by (nonlinear_arith)
            requires
                p.time_scale >= 1,
                step >= 0,
        ;
        let q = p.poll(now).0;
        assert(p.poll(now).1 is Sample);
        assert(q.last == now);
        let rest = steady(q.last, step, (count - 1) as nat);
        assert(readings.drop_first() =~= rest) by {
            assert forall|k: int| 0 <= k < count - 1 implies readings.drop_first()[k]
                == rest[k] by {
                assert((k + 1 + 1) * step == step + (k + 1) * step) by (nonlinear_arith);
            }
        }
        lemma_steady_run(q, (count - 1) as nat);
        assert(emitted(p, readings) =~= seq![p.poll(now).1->Sample_0] + emitted(q, rest));
    } else {
        assert(readings.len() == 0);
    }
}

/// A probe made for `N >= 0` samples does yield `N` snapshots, and then is
/// finished: it does so on a clock that advances by more than the interval
/// between pollings (and whose readings stay within 64 bits).
pub proof fn law_bounded_run_completes(config: TimeProbeConfig, now: u64, epoch_seconds: i64)
    requires
        config.samples >= 0,
        now + config.samples * (config.interval + 1) <= u64::MAX,
    ensures
        emitted(
            ProbeState::started(config, now, epoch_seconds),
            steady(now, config.interval + 1, config.samples as nat),
        ).len() == config.samples,
        after(
            ProbeState::started(config, now, epoch_seconds),
            steady(now, config.interval + 1, config.samples as nat),
        ).finished(),
{
    let p = ProbeState::started(config, now, epoch_seconds);
    lemma_steady_run(p, config.samples as nat);
    law_bounded_run(
        config,
        now,
        epoch_seconds,
        steady(now, config.interval + 1, config.samples as nat),
    );
}

} // verus!
