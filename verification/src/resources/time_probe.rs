//! The scheduler: decides, at each reading of a monotonic clock, whether a
//! sample is due, and stamps the samples it emits.
//!
//! The probe never reads a clock and never sleeps. Its driver reads the
//! monotonic clock in milliseconds, asks the probe with [`TimeProbe::poll`], and
//! sleeps for the idle time when the probe answers [`Tick::Idle`]. Elapsed time
//! is always recomputed from the readings, never summed up from steps.

use vstd::prelude::*;
use vstd::string::StringExecFns;

verus! {

/// The first instant, in milliseconds since the epoch, that has no calendar
/// form here: the start of the year 10000.
pub const UTC_LIMIT: u128 = 253_402_300_800_000;

/// The largest reference instant, in milliseconds since the epoch.
pub const REFERENCE_LIMIT: u128 = 9_223_372_036_854_775_807_000;

/// How a probe samples.
#[derive(Debug, Clone, Copy)]
pub struct TimeProbeConfig {
    /// Scaled milliseconds that must pass between samples.
    pub interval: u64,
    /// Milliseconds to wait before the clock is looked at again.
    pub idle: u64,
    /// The number of samples after which the probe ends; negative to run forever.
    pub samples: i64,
    /// Multiplier applied to elapsed real time; zero and below count as one.
    pub time_scale: i64,
}

/// One sampling event.
#[derive(Debug, Clone)]
pub struct TimeSnapshot {
    /// Milliseconds since the epoch.
    pub timestamp: u128,
    /// Scaled milliseconds since the probe started.
    pub elapsed: u128,
    /// The timestamp as a date and time in UTC, in the form of RFC 2822;
    /// absent from the year 10000 on, which that form cannot hold.
    pub utc: Option<String>,
}

/// The mathematical content of a [`TimeSnapshot`].
pub struct SnapshotView {
    pub timestamp: int,
    pub elapsed: int,
    pub utc: Option<Seq<char>>,
}

impl View for TimeSnapshot {
    type V = SnapshotView;

    open spec fn view(&self) -> SnapshotView {
        SnapshotView {
            timestamp: self.timestamp as int,
            elapsed: self.elapsed as int,
            utc: match self.utc {
                Some(text) => Some(text@),
                None => None,
            },
        }
    }
}

/// What the probe decides at one reading of the clock.
#[derive(Debug, Clone)]
pub enum Tick {
    /// A sample is due: here it is.
    Sample(TimeSnapshot),
    /// Nothing is due yet: wait this many milliseconds and ask again.
    Idle(u64),
    /// The probe has emitted all its samples.
    Finished,
}

/// The mathematical content of a [`Tick`].
pub enum TickView {
    Sample(SnapshotView),
    Idle(u64),
    Finished,
}

impl View for Tick {
    type V = TickView;

    open spec fn view(&self) -> TickView {
        match self {
            Tick::Sample(snapshot) => TickView::Sample(snapshot@),
            Tick::Idle(wait) => TickView::Idle(*wait),
            Tick::Finished => TickView::Finished,
        }
    }
}

/// Why the reference time could not be corrected.
#[derive(Debug, Clone)]
pub enum TimeProbeError {
    /// The network time lookup failed.
    NetworkSyncFailed(String),
}

impl TimeProbeError {
    /// The printed form of the error: its name and the quoted message.
    pub open spec fn text(&self) -> Seq<char> {
        match self {
            TimeProbeError::NetworkSyncFailed(m) => "NetworkSyncFailed"@ + "("@
                + crate::text::debug_text(m@) + ")"@,
        }
    }

    /// Prints the error.
    pub fn to_text(&self) -> (r: String)
        ensures
            r@ == self.text(),
    {
        match self {
            TimeProbeError::NetworkSyncFailed(m) => crate::text::labelled(
                "NetworkSyncFailed",
                m.as_str(),
            ),
        }
    }
}

/// The RFC 2822 text of the UTC date and time at `millis` milliseconds after
/// the epoch.
pub uninterp spec fn rfc2822_utc(millis: int) -> Seq<char>;

/// The calendar form of an instant, where it has one.
pub open spec fn utc_text(timestamp: int) -> Option<Seq<char>> {
    if 0 <= timestamp < UTC_LIMIT {
        Some(rfc2822_utc(timestamp))
    } else {
        None
    }
}

/// Formats an instant with chrono: `DateTime::<Utc>::from` on the system time
/// at `millis` after the epoch, then `to_rfc2822`. Trusted: the text is a
/// function of the instant alone, named and not spelled out. Both calls are
/// defined up to the year 9999 only, hence the bound.
#[verifier::external_body]
fn format_utc(millis: u64) -> (r: String)
    requires
        millis < UTC_LIMIT,
    ensures
        r@ == rfc2822_utc(millis as int),
{
    let instant = std::time::UNIX_EPOCH + std::time::Duration::from_millis(millis);
    chrono::DateTime::<chrono::Utc>::from(instant).to_rfc2822()
}

/// The mathematical content of a [`TimeProbe`].
pub struct ProbeState {
    pub interval: u64,
    pub idle: u64,
    pub samples: i64,
    pub time_scale: i64,
    /// Milliseconds since the epoch at the moment the probe started.
    pub reference: u128,
    /// Clock reading at which the probe started.
    pub moment: u64,
    /// Clock reading of the latest sample, or of the start.
    pub last: u64,
    /// Samples emitted so far.
    pub sampled: i64,
}

impl ProbeState {
    /// The states that a probe can be in.
    pub open spec fn wf(self) -> bool {
        &&& self.time_scale >= 1
        &&& self.reference <= REFERENCE_LIMIT
        &&& self.moment <= self.last
        &&& self.sampled >= 0
        &&& (self.samples >= 0 ==> self.sampled <= self.samples)
    }

    /// The state of a probe made with `config` at clock reading `now`, the
    /// wall clock standing at `epoch_seconds`.
    pub open spec fn started(config: TimeProbeConfig, now: u64, epoch_seconds: i64) -> ProbeState {
        ProbeState {
            interval: config.interval,
            idle: config.idle,
            samples: config.samples,
            time_scale: if config.time_scale <= 0 {
                1
            } else {
                config.time_scale
            },
            reference: if epoch_seconds <= 0 {
                0
            } else {
                (epoch_seconds * 1000) as u128
            },
            moment: now,
            last: now,
            sampled: 0,
        }
    }

    /// Whether the probe has emitted all the samples it was asked for.
    pub open spec fn finished(self) -> bool {
        self.samples >= 0 && self.sampled >= self.samples
    }

    /// Scaled time between the latest sample (or the start) and `now`; zero
    /// where the clock reads less than it did then.
    pub open spec fn waited(self, now: u64) -> int {
        if now >= self.last {
            (now - self.last) * self.time_scale
        } else {
            0
        }
    }

    /// Whether a sample is due at `now`.
    pub open spec fn due(self, now: u64) -> bool {
        !self.finished() && self.waited(now) > self.interval
    }

    /// Scaled time between the start and a clock reading.
    pub open spec fn elapsed_at(self, reading: u64) -> int {
        (reading - self.moment) * self.time_scale
    }

    /// The snapshot of a sample taken `elapsed` scaled milliseconds after the start.
    pub open spec fn snapshot(self, elapsed: int) -> SnapshotView {
        SnapshotView {
            timestamp: self.reference + elapsed,
            elapsed,
            utc: utc_text(self.reference + elapsed),
        }
    }

    /// The count of samples after one more; it stops at `i64::MAX`, which only
    /// a probe that runs forever can reach.
    pub open spec fn counted(self) -> i64 {
        if self.sampled < i64::MAX {
            (self.sampled + 1) as i64
        } else {
            self.sampled
        }
    }

    /// The state and the decision after the clock was read at `now`.
    pub open spec fn poll(self, now: u64) -> (ProbeState, TickView) {
        if self.finished() {
            (self, TickView::Finished)
        } else if self.waited(now) > self.interval {
            (
                ProbeState { sampled: self.counted(), last: now, ..self },
                TickView::Sample(self.snapshot(self.elapsed_at(now))),
            )
        } else {
            (self, TickView::Idle(self.idle))
        }
    }

    /// The state after a time lookup that gave `seconds`, taken at `now`.
    pub open spec fn synced(self, seconds: u32, now: u64) -> ProbeState {
        ProbeState { reference: (seconds * 1000) as u128, moment: now, last: now, ..self }
    }
}

/// A drift-corrected interval generator.
pub struct TimeProbe {
    config: TimeProbeConfig,
    reference: u128,
    moment: u64,
    last: u64,
    sampled: i64,
}

impl View for TimeProbe {
    type V = ProbeState;

    closed spec fn view(&self) -> ProbeState {
        ProbeState {
            interval: self.config.interval,
            idle: self.config.idle,
            samples: self.config.samples,
            time_scale: self.config.time_scale,
            reference: self.reference,
            moment: self.moment,
            last: self.last,
            sampled: self.sampled,
        }
    }
}

impl TimeProbe {
    #[verifier::type_invariant]
    spec fn valid(self) -> bool {
        self@.wf()
    }

    /// A probe that starts now: `now` is the monotonic clock's reading in
    /// milliseconds, `epoch_seconds` the wall clock's in seconds since the
    /// epoch (a time before the epoch counts as the epoch). A time scale of
    /// zero or less becomes one.
    pub fn new(config: TimeProbeConfig, now: u64, epoch_seconds: i64) -> (r: TimeProbe)
        ensures
            r@ == ProbeState::started(config, now, epoch_seconds),
            r@.wf(),
    {
        let mut config = config;
        if config.time_scale <= 0 {
            config.time_scale = 1;
        }
        let reference: u128 = if epoch_seconds <= 0 {
            0
        } else {
            (epoch_seconds as u128) * 1000
        };
        TimeProbe { config, reference, moment: now, last: now, sampled: 0 }
    }

    /// The configuration in force: the one given, with the time scale normalised.
    pub fn config(&self) -> (r: TimeProbeConfig)
        ensures
            r.interval == self@.interval,
            r.idle == self@.idle,
            r.samples == self@.samples,
            r.time_scale == self@.time_scale,
            r.time_scale >= 1,
    {
        proof {
            use_type_invariant(self);
        }
        self.config
    }

    /// The number of samples emitted so far.
    pub fn sampled(&self) -> (r: i64)
        ensures
            r == self@.sampled,
    {
        self.sampled
    }

    /// The reference instant, in milliseconds since the epoch.
    pub fn reference_time(&self) -> (r: u128)
        ensures
            r == self@.reference,
    {
        self.reference
    }

    /// Takes the result of a network time lookup made at clock reading `now`.
    /// On success the reference becomes the seconds it gave and the probe
    /// starts over at `now`; on failure the probe is unchanged and the error
    /// carries the lookup's message behind `NTP lookup failed: `.
    pub fn sync_network_time(&mut self, lookup: Result<u32, String>, now: u64) -> (r: Result<
        (),
        TimeProbeError,
    >)
        ensures
            final(self)@.wf(),
            match lookup {
                Ok(seconds) => r is Ok && final(self)@ == old(self)@.synced(seconds, now),
                Err(message) => final(self)@ == old(self)@ && (r matches Err(
                    TimeProbeError::NetworkSyncFailed(m),
                ) && m@ == "NTP lookup failed: "@ + message@),
            },
    {
        proof {
            use_type_invariant(&*self);
        }
        match lookup {
            Ok(seconds) => {
                *self = TimeProbe {
                    config: self.config,
                    reference: (seconds as u128) * 1000,
                    moment: now,
                    last: now,
                    sampled: self.sampled,
                };
                Ok(())
            },
            Err(message) => {
                let mut text = String::from_str("NTP lookup failed: ");
                text.append(message.as_str());
                Err(TimeProbeError::NetworkSyncFailed(text))
            },
        }
    }

    /// The snapshot of a sample taken `ms_since_spawn` scaled milliseconds
    /// after the start.
    pub fn as_snapshot(&self, ms_since_spawn: u128) -> (r: TimeSnapshot)
        requires
            ms_since_spawn <= u64::MAX * i64::MAX,
        ensures
            r@ == self@.snapshot(ms_since_spawn as int),
    {
        proof {
            use_type_invariant(self);
        }
        let timestamp: u128 = self.reference + ms_since_spawn;
        let utc = if timestamp < UTC_LIMIT {
            Some(format_utc(timestamp as u64))
        } else {
            None
        };
        TimeSnapshot { timestamp, elapsed: ms_since_spawn, utc }
    }

    /// Decides what happens at clock reading `now`: the probe is finished, a
    /// sample is due, or the driver waits for the idle time and asks again.
    pub fn poll(&mut self, now: u64) -> (r: Tick)
        ensures
            (final(self)@, r@) == old(self)@.poll(now),
            final(self)@.wf(),
    {
        proof {
            use_type_invariant(&*self);
        }
        if self.config.samples >= 0 && self.sampled >= self.config.samples {
            return Tick::Finished;
        }
        let scale: u128 = self.config.time_scale as u128;
        let elapsed_real: u128 = if now >= self.last {
            (now - self.last) as u128
        } else {
            0
        };
        assert(elapsed_real * scale <= u64::MAX * i64::MAX) by (nonlinear_arith)
            requires
                elapsed_real <= u64::MAX,
                scale <= i64::MAX,
        ;
        let elapsed_scale: u128 = elapsed_real * scale;
        if elapsed_scale > self.config.interval as u128 {
            let since_spawn_real: u128 = (now - self.moment) as u128;
            assert(since_spawn_real * scale <= u64::MAX * i64::MAX) by (nonlinear_arith)
                requires
                    since_spawn_real <= u64::MAX,
                    scale <= i64::MAX,
            ;
            let since_spawn_scale: u128 = since_spawn_real * scale;
            let snapshot = self.as_snapshot(since_spawn_scale);
            let sampled = if self.sampled < i64::MAX {
                self.sampled + 1
            } else {
                self.sampled
            };
            *self = TimeProbe {
                config: self.config,
                reference: self.reference,
                moment: self.moment,
                last: now,
                sampled,
            };
            return Tick::Sample(snapshot);
        }
        Tick::Idle(self.config.idle)
    }
}

} // verus!
