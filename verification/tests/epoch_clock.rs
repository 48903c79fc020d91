use epochtime::{Clock, Config, Time};
use std::time::{SystemTime, UNIX_EPOCH};

#[test]
fn basic_time_now_test() {
    let e = Clock::new_katzenpost();
    let now = e.now();
    println!("current {} elapsed {} till {}", now.epoch, now.elapsed, now.till);
}

#[test]
fn is_in_epoch_test() {
    let e = Clock::new_katzenpost();
    let now = e.now();
    let unix_epoch_now = SystemTime::now().duration_since(UNIX_EPOCH).unwrap();
    let now_secs = unix_epoch_now.as_secs();
    assert_eq!(e.is_in_epoch(now.epoch, now_secs), true);
}

#[test]
fn snapshot_scenario_origin_zero() {
    let c = Clock::new(Config { epoch: 0, period: 100 });
    assert_eq!(c.get_epoch(0), Time { epoch: 0, elapsed: 0, till: 100 });
    assert_eq!(c.get_epoch(150), Time { epoch: 1, elapsed: 50, till: 50 });
    assert_eq!(c.get_epoch(199), Time { epoch: 1, elapsed: 99, till: 1 });
    assert_eq!(c.get_epoch(200), Time { epoch: 2, elapsed: 0, till: 100 });
}

#[test]
fn membership_scenario_origin_zero() {
    let c = Clock::new(Config { epoch: 0, period: 100 });
    assert!(c.is_in_epoch(1, 150));
    assert!(!c.is_in_epoch(1, 200));
    assert!(c.is_in_epoch(1, 100));
}

#[test]
fn katzenpost_preset_configuration() {
    let c = Clock::new_katzenpost();
    assert_eq!(c.period(), 10800);
    // Epoch 0 starts exactly at 2017-06-01T00:00:00Z, i.e. 1496275200.
    assert_eq!(c.get_epoch(1496275200), Time { epoch: 0, elapsed: 0, till: 10800 });
    assert!(c.is_in_epoch(0, 1496275200));
    assert!(!c.is_in_epoch(0, 1496275199));
    assert_eq!(c.get_epoch(1496275200 + 10800).epoch, 1);
    assert!(c.is_in_epoch(1, 1496275200 + 10800));
}

#[test]
fn partition_holds_at_sample_instants() {
    let c = Clock::new(Config { epoch: 1000, period: 77 });
    for t in [1000u64, 1001, 1076, 1077, 5000, u64::MAX] {
        let s = c.get_epoch(t);
        assert_eq!(s.elapsed + s.till, 77);
        assert!(s.elapsed < 77);
    }
}

#[test]
fn instant_before_origin_wraps_to_degenerate_values() {
    // A documented degenerate edge: an instant before the origin wraps
    // to a huge epoch index instead of failing, and the partition of
    // the period still holds.
    let c = Clock::new(Config { epoch: 100, period: 10 });
    let s = c.get_epoch(5);
    assert_eq!(s.epoch, 1844674407370955152);
    assert_eq!(s.elapsed, 1);
    assert_eq!(s.till, 9);
    assert_eq!(s.elapsed + s.till, 10);
}

#[test]
fn epoch_boundaries() {
    let c = Clock::new(Config { epoch: 1000, period: 50 });
    // Start of epoch 7 is 1000 + 7 * 50.
    assert!(c.is_in_epoch(7, 1350));
    assert!(c.is_in_epoch(7, 1399));
    assert!(!c.is_in_epoch(7, 1400));
    assert!(c.is_in_epoch(8, 1400));
}

#[test]
fn membership_at_wraparound_epoch() {
    // The last epoch index wraps: its start is computed modulo 2^64 and
    // the membership comparisons use plain order, so only the start
    // itself is recognised once the span crosses 2^64.
    let c = Clock::new(Config { epoch: 0, period: 10 });
    let start = u64::MAX.wrapping_mul(10);
    assert_eq!(start, u64::MAX - 9);
    assert!(c.is_in_epoch(u64::MAX, start));
    assert!(!c.is_in_epoch(u64::MAX, start.wrapping_add(4)));
}

#[test]
fn epoch_is_monotone_past_the_origin() {
    let c = Clock::new(Config { epoch: 500, period: 13 });
    let mut last: u64 = 0;
    for t in [500u64, 600, 601, 999, 100_000, u64::MAX] {
        let s = c.get_epoch(t);
        assert!(s.epoch >= last);
        last = s.epoch;
    }
}

#[test]
fn queries_are_deterministic() {
    let a = Clock::new(Config { epoch: 42, period: 9 });
    let b = Clock::new(Config { epoch: 42, period: 9 });
    assert_eq!(a.get_epoch(12345), b.get_epoch(12345));
    assert_eq!(a.get_epoch(12345), a.get_epoch(12345));
    assert_eq!(a.period(), b.period());
}

#[test]
fn default_values_are_zeroed() {
    assert_eq!(Time::default(), Time { epoch: 0, elapsed: 0, till: 0 });
    assert_eq!(Config::default(), Config { epoch: 0, period: 0 });
    assert_eq!(Clock::default().period(), 0);
}
