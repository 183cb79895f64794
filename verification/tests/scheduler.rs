use rust_snapshot::resources::time_probe::{TimeProbeError, UTC_LIMIT};
use rust_snapshot::resources::{Tick, TimeProbe, TimeProbeConfig, TimeSnapshot};

/// Drives a probe against a clock whose every sleep overshoots by a
/// millisecond, and gathers what the probe emits.
fn collect(probe: &mut TimeProbe, start: u64) -> Vec<TimeSnapshot> {
    let mut results = Vec::new();
    let mut now = start;
    loop {
        match probe.poll(now) {
            Tick::Sample(snapshot) => results.push(snapshot),
            Tick::Idle(wait) => now += wait + 1,
            Tick::Finished => return results,
        }
    }
}

#[test]
pub fn sample_at_interval() {
    let mut probe = TimeProbe::new(
        TimeProbeConfig { interval: 500, idle: 100, samples: 4, time_scale: 1 },
        0,
        1_600_000_000,
    );

    let results: Vec<TimeSnapshot> = collect(&mut probe, 0);
    assert_eq!(results.len(), 4);

    for (i, result) in results.iter().enumerate() {
        assert_eq!((result.elapsed / 500), (i + 1) as u128);
    }
}

#[test]
pub fn sample_at_interval_with_scale() {
    let mut probe = TimeProbe::new(
        TimeProbeConfig { interval: 1000, idle: 100, samples: 10, time_scale: 5 },
        0,
        1_600_000_000,
    );

    let results: Vec<TimeSnapshot> = collect(&mut probe, 0);
    assert_eq!(results.len(), 10);

    for (i, result) in results.iter().enumerate() {
        assert_eq!((result.elapsed / 1000), (i + 1) as u128);
    }
}

#[test]
pub fn sample_at_interval_with_ntp() {
    let mut probe = TimeProbe::new(
        TimeProbeConfig { interval: 1000, idle: 100, samples: 2, time_scale: 1 },
        0,
        1_600_000_000,
    );

    probe.sync_network_time(Ok(1_700_000_000), 250).unwrap();

    let results: Vec<TimeSnapshot> = collect(&mut probe, 250);
    assert_eq!(results.len(), 2);

    for (i, result) in results.iter().enumerate() {
        println!("{:?}", result);
        assert_eq!((result.elapsed / 1000), (i + 1) as u128);
    }
    assert_eq!(results[0].timestamp, 1_700_000_000_000 + results[0].elapsed);
}

#[test]
fn time_scale_of_zero_or_less_becomes_one() {
    for scale in [0i64, -1, -5, i64::MIN] {
        let probe = TimeProbe::new(
            TimeProbeConfig { interval: 10, idle: 1, samples: 1, time_scale: scale },
            0,
            0,
        );
        assert_eq!(probe.config().time_scale, 1);
    }
    let probe = TimeProbe::new(
        TimeProbeConfig { interval: 10, idle: 1, samples: 1, time_scale: 7 },
        0,
        0,
    );
    assert_eq!(probe.config().time_scale, 7);
    assert_eq!(probe.config().interval, 10);
    assert_eq!(probe.config().idle, 1);
    assert_eq!(probe.config().samples, 1);
}

#[test]
fn probe_for_no_samples_is_finished_at_once() {
    let mut probe = TimeProbe::new(
        TimeProbeConfig { interval: 10, idle: 1, samples: 0, time_scale: 1 },
        0,
        0,
    );
    assert!(matches!(probe.poll(1_000_000), Tick::Finished));
    assert!(collect(&mut probe, 0).is_empty());
    assert_eq!(probe.sampled(), 0);
}

#[test]
fn unbounded_probe_keeps_sampling() {
    let mut probe = TimeProbe::new(
        TimeProbeConfig { interval: 5, idle: 1, samples: -1, time_scale: 1 },
        0,
        0,
    );
    let mut now = 0u64;
    let mut seen = 0;
    while seen < 1000 {
        match probe.poll(now) {
            Tick::Sample(_) => seen += 1,
            Tick::Idle(wait) => now += wait,
            Tick::Finished => panic!("an unbounded probe never finishes"),
        }
    }
    assert_eq!(probe.sampled(), 1000);
}

#[test]
fn elapsed_rises_by_more_than_the_interval() {
    let mut probe = TimeProbe::new(
        TimeProbeConfig { interval: 300, idle: 70, samples: 25, time_scale: 3 },
        40,
        12,
    );
    let results = collect(&mut probe, 40);
    assert_eq!(results.len(), 25);
    let mut previous = 0u128;
    for result in results.iter() {
        assert!(result.elapsed > previous + 300);
        assert_eq!(result.timestamp, 12_000 + result.elapsed);
        previous = result.elapsed;
    }
}

#[test]
fn sample_is_due_only_beyond_the_interval() {
    let mut probe = TimeProbe::new(
        TimeProbeConfig { interval: 500, idle: 100, samples: 3, time_scale: 1 },
        1000,
        0,
    );
    assert!(matches!(probe.poll(1000), Tick::Idle(100)));
    assert!(matches!(probe.poll(1500), Tick::Idle(100)));
    match probe.poll(1501) {
        Tick::Sample(snapshot) => {
            assert_eq!(snapshot.elapsed, 501);
            assert_eq!(snapshot.timestamp, 501);
        }
        _ => panic!("a sample was due"),
    }
    // a clock that reads less than before makes nothing due
    assert!(matches!(probe.poll(3), Tick::Idle(100)));
    assert!(matches!(probe.poll(2001), Tick::Idle(100)));
    assert!(matches!(probe.poll(2002), Tick::Sample(_)));
}

#[test]
fn snapshot_carries_the_calendar_form_of_its_timestamp() {
    let mut probe = TimeProbe::new(
        TimeProbeConfig { interval: 1000, idle: 100, samples: 1, time_scale: 1 },
        0,
        1_056_999_157,
    );
    match probe.poll(3000) {
        Tick::Sample(snapshot) => {
            assert_eq!(snapshot.timestamp, 1_056_999_160_000);
            assert_eq!(snapshot.utc.as_deref(), Some("Mon, 30 Jun 2003 18:52:40 +0000"));
        }
        _ => panic!("a sample was due"),
    }
    let epoch = TimeProbe::new(
        TimeProbeConfig { interval: 1000, idle: 100, samples: 1, time_scale: 1 },
        0,
        0,
    );
    let first = epoch.as_snapshot(0);
    assert_eq!(first.utc.as_deref(), Some("Thu, 1 Jan 1970 00:00:00 +0000"));
    let last = epoch.as_snapshot(UTC_LIMIT - 1);
    assert_eq!(last.utc.as_deref(), Some("Fri, 31 Dec 9999 23:59:59 +0000"));
    let beyond = epoch.as_snapshot(UTC_LIMIT);
    assert_eq!(beyond.utc, None);
    assert_eq!(beyond.timestamp, UTC_LIMIT);
}

#[test]
fn wall_clock_before_the_epoch_counts_as_the_epoch() {
    let probe = TimeProbe::new(
        TimeProbeConfig { interval: 1, idle: 1, samples: 1, time_scale: 1 },
        0,
        -5,
    );
    assert_eq!(probe.reference_time(), 0);
    let probe = TimeProbe::new(
        TimeProbeConfig { interval: 1, idle: 1, samples: 1, time_scale: 1 },
        0,
        i64::MAX,
    );
    assert_eq!(probe.reference_time(), (i64::MAX as u128) * 1000);
}

#[test]
fn failed_time_lookup_leaves_the_probe_alone() {
    let mut probe = TimeProbe::new(
        TimeProbeConfig { interval: 1000, idle: 100, samples: 2, time_scale: 1 },
        7,
        1_600_000_000,
    );
    let result = probe.sync_network_time(Err("no route to host".to_string()), 900);
    match result {
        Err(TimeProbeError::NetworkSyncFailed(message)) => {
            assert_eq!(message, "NTP lookup failed: no route to host");
        }
        Ok(()) => panic!("the lookup failed"),
    }
    assert_eq!(probe.reference_time(), 1_600_000_000_000);
    // still anchored at 7: a sample is due at 1008
    assert!(matches!(probe.poll(1007), Tick::Idle(100)));
    assert!(matches!(probe.poll(1008), Tick::Sample(_)));
    let shown = TimeProbeError::NetworkSyncFailed("x".to_string()).to_text();
    assert_eq!(shown, "NetworkSyncFailed(\"x\")");
}
