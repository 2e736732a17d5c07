use usage_tracker::platform::{get_active_window_title, get_idle_time, PlatformError};
use usage_tracker::schedule::{sample_due, SAMPLE_INTERVAL_MILLIS};
use usage_tracker::segmenter::{Segmenter, IDLE_THRESHOLD_MILLIS};
use usage_tracker::timestamp::{seconds_between, Timestamp};
use usage_tracker::tracker::TrackingState;
use usage_tracker::usage::{AppUsage, UsageRecord};

fn at(secs: i64, nanos: u32) -> Timestamp {
    Timestamp { secs, nanos, offset_secs: 0 }
}

#[test]
fn whole_seconds_are_truncated() {
    assert_eq!(seconds_between(&at(10, 0), &at(12, 0)), 2);
    assert_eq!(seconds_between(&at(10, 900_000_000), &at(12, 100_000_000)), 1);
    assert_eq!(seconds_between(&at(10, 100_000_000), &at(12, 900_000_000)), 2);
    assert_eq!(seconds_between(&at(-1, 500_000_000), &at(0, 400_000_000)), 0);
    assert_eq!(seconds_between(&at(-8_000_000_000_000, 0), &at(8_000_000_000_000, 0)), 16_000_000_000_000);
}

#[test]
fn timestamp_rejects_overlong_nanos() {
    assert_eq!(Timestamp::new(1, 1_000_000_000, 0), None);
    assert_eq!(Timestamp::new(8_000_000_000_001, 0, 0), None);
    assert_eq!(Timestamp::new(-8_000_000_000_001, 0, 0), None);
    assert_eq!(Timestamp::new(0, 0, 86_400), None);
    assert_eq!(Timestamp::new(0, 0, -86_400), None);
    assert!(Timestamp::new(-8_000_000_000_000, 0, -86_399).is_some());
    assert!(!at(0, 1_500_000_000).is_valid());
    assert!(at(0, 999_999_999).is_valid());
    assert_eq!(Timestamp::new(1, 999_999_999, 60), Some(Timestamp { secs: 1, nanos: 999_999_999, offset_secs: 60 }));
    assert!(at(1, 5).not_after(&at(1, 5)));
    assert!(!at(2, 0).not_after(&at(1, 999_999_999)));
}

#[test]
fn one_switch_gives_one_record() {
    let mut s = Segmenter::new();
    assert!(s.observe("A - w (a.id)", at(100, 0), Some(0)).is_none());
    assert!(!s.is_boundary("A - w (a.id)"));
    assert!(s.observe("A - w (a.id)", at(101, 0), Some(0)).is_none());
    assert!(s.is_boundary("B - v (b.id)"));
    let r = s.observe("B - v (b.id)", at(107, 500_000_000), Some(0)).unwrap();
    assert_eq!(r.app, "A");
    assert_eq!(r.window, "w");
    assert_eq!(r.start_time, at(100, 0));
    assert_eq!(r.end_time, at(107, 500_000_000));
    assert_eq!(r.duration_secs, 7);
    assert_eq!(s.session_start(), Some(at(107, 500_000_000)));
}

#[test]
fn idle_switch_gives_no_record() {
    let mut s = Segmenter::new();
    assert!(s.observe("A", at(0, 0), Some(0)).is_none());
    assert!(s.observe("A", at(1, 0), Some(0)).is_none());
    assert!(s.observe("B", at(2, 0), Some(400_000)).is_none());
    assert_eq!(s.session_start(), Some(at(2, 0)));
    let r = s.observe("C", at(5, 0), Some(0)).unwrap();
    assert_eq!(r.app, "B");
    assert_eq!(r.start_time, at(2, 0));
    assert_eq!(r.duration_secs, 3);
}

#[test]
fn idle_threshold_is_exclusive() {
    let mut s = Segmenter::new();
    s.observe("A", at(0, 0), None);
    assert!(s.observe("B", at(1, 0), Some(IDLE_THRESHOLD_MILLIS)).is_none());
    assert!(s.observe("C", at(2, 0), Some(IDLE_THRESHOLD_MILLIS - 1)).is_some());
}

#[test]
fn unread_idle_time_skips_record() {
    let mut s = Segmenter::new();
    s.observe("A", at(0, 0), None);
    assert!(s.observe("B", at(3, 0), None).is_none());
    assert_eq!(s.session_start(), Some(at(3, 0)));
}

#[test]
fn empty_sample_closes_without_opening() {
    let mut s = Segmenter::new();
    assert!(s.observe("", at(0, 0), Some(0)).is_none());
    assert_eq!(s.session_start(), None);
    s.observe("A", at(1, 0), Some(0));
    let r = s.observe("", at(4, 0), Some(0)).unwrap();
    assert_eq!(r.app, "A");
    assert_eq!(s.session_start(), None);
}

fn usage(app: &str) -> UsageRecord {
    UsageRecord::from_usage(&AppUsage::new(app, at(0, 0), at(1, 0), 1))
}

#[test]
fn start_twice_launches_once() {
    let mut t = TrackingState::new();
    assert!(!t.is_tracking());
    assert!(t.start());
    assert!(!t.start());
    assert!(t.is_tracking());
    assert!(t.record(usage("A")));
    assert_eq!(t.snapshot().len(), 1);
}

#[test]
fn stop_twice_is_harmless() {
    let mut t = TrackingState::new();
    assert!(!t.stop());
    t.start();
    assert!(t.stop());
    assert!(!t.stop());
    assert!(!t.is_tracking());
}

#[test]
fn snapshot_copies_and_grows() {
    let mut t = TrackingState::new();
    t.start();
    t.record(usage("A"));
    let first = t.snapshot();
    t.record(usage("B"));
    let second = t.snapshot();
    assert_eq!(first.len(), 1);
    assert_eq!(second.len(), 2);
    assert_eq!(second[0].app, first[0].app);
    assert_eq!(second[1].app, "B");
    t.stop();
    assert!(!t.record(usage("C")));
    assert_eq!(t.snapshot().len(), 2);
}

#[test]
fn linux_queries_are_unsupported() {
    assert_eq!(get_active_window_title(), Err(PlatformError::Unsupported));
    assert_eq!(get_idle_time(), Err(PlatformError::Unsupported));
}

#[test]
fn transport_record_formats_instants() {
    let start = Timestamp { secs: 0, nanos: 0, offset_secs: 0 };
    let end = Timestamp { secs: 86_400 + 3_600, nanos: 500_000_000, offset_secs: 7_200 };
    let u = AppUsage::new("Slack - general (com.something.slack)", start, end, 90_000);
    let r = UsageRecord::from_usage(&u);
    assert_eq!(r.app, "Slack");
    assert_eq!(r.window, "general");
    assert_eq!(r.start_time, "1970-01-01T00:00:00+00:00");
    assert_eq!(r.end_time, "1970-01-02T03:00:00.500+02:00");
    assert_eq!(r.duration_secs, 90_000);
    let c = r.duplicate();
    assert_eq!(c.start_time, r.start_time);
    assert_eq!(c.end_time, r.end_time);
}

#[test]
fn sampling_is_due_after_one_second() {
    assert_eq!(SAMPLE_INTERVAL_MILLIS, 1_000);
    assert!(!sample_due(0));
    assert!(!sample_due(999));
    assert!(sample_due(1_000));
    assert!(sample_due(u64::MAX));
}
