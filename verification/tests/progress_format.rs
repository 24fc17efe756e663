use framepipe::progress::render_line;
use framepipe::progress::ProgressTracker;
use framepipe::textfmt::fmt_dec;
use framepipe::textfmt::fmt_deci;
use framepipe::textfmt::fmt_hms_millis;
use framepipe::textfmt::fmt_pad2;
use framepipe::textfmt::fmt_pad3;

#[test]
fn decimal_rendering_is_exact() {
    assert_eq!(fmt_dec(0), "0");
    assert_eq!(fmt_dec(7), "7");
    assert_eq!(fmt_dec(1234567890123), "1234567890123");
    assert_eq!(fmt_pad2(3), "03");
    assert_eq!(fmt_pad2(42), "42");
    assert_eq!(fmt_pad3(3), "003");
    assert_eq!(fmt_pad3(42), "042");
    assert_eq!(fmt_pad3(420), "420");
    assert_eq!(fmt_deci(50), "5.0");
    assert_eq!(fmt_deci(123), "12.3");
    assert_eq!(fmt_deci(7), "0.7");
}

#[test]
fn clock_format_is_zero_padded() {
    assert_eq!(fmt_hms_millis(0), "00:00:00.000");
    assert_eq!(fmt_hms_millis(3_723_456), "01:02:03.456");
    assert_eq!(fmt_hms_millis(59_999), "00:00:59.999");
    assert_eq!(fmt_hms_millis(360_000_000), "100:00:00.000");
}

#[test]
fn halfway_report_derives_speed_percent_and_eta() {
    let tracker = ProgressTracker::new(true, false, 30000, Some(100), 0);
    let report = tracker.compute_report(50, 10_000);
    assert_eq!(report.elapsed_ms, 10_000);
    assert_eq!(report.speed_deci, 50);
    assert_eq!(report.pct_deci, Some(500));
    assert_eq!(report.eta_ms, Some(10_000));
    assert_eq!(report.pos_ms, 1_666);
}

#[test]
fn report_without_total_omits_percent_and_eta() {
    let tracker = ProgressTracker::new(true, false, 30000, None, 0);
    let report = tracker.compute_report(50, 10_000);
    assert_eq!(report.pct_deci, None);
    assert_eq!(report.eta_ms, None);
}

#[test]
fn log_line_renders_all_available_fields() {
    let tracker = ProgressTracker::new(true, false, 30000, Some(100), 0);
    let report = tracker.compute_report(50, 10_000);
    let line = render_line(&report, false);
    assert_eq!(
        line,
        "Progress: frame 50/100 (50.0%) pos 00:00:01.666 elapsed 00:00:10.000 speed 5.0 fps ETA 00:00:10.000"
    );
}

#[test]
fn terminal_line_rewrites_in_place() {
    let tracker = ProgressTracker::new(true, true, 30000, None, 0);
    let report = tracker.compute_report(1, 0);
    let line = render_line(&report, true);
    assert_eq!(line, "\rframe 1 pos 00:00:00.033 elapsed 00:00:00.000 speed 0.0 fps");
}

#[test]
fn first_frame_always_renders() {
    let mut tracker = ProgressTracker::new(true, false, 30000, None, 0);
    assert!(tracker.maybe_update(1, 0).is_some());
}

#[test]
fn updates_are_rate_limited_to_one_per_half_second() {
    let mut tracker = ProgressTracker::new(true, false, 30000, None, 0);
    assert!(tracker.maybe_update(1, 0).is_some());
    // Two calls 100 ms apart, neither the first: only one renders.
    assert!(tracker.maybe_update(2, 600).is_some());
    assert!(tracker.maybe_update(3, 700).is_none());
    assert!(tracker.maybe_update(4, 1_100).is_some());
}

#[test]
fn disabled_tracker_never_renders() {
    let mut tracker = ProgressTracker::new(false, false, 30000, Some(10), 0);
    assert!(tracker.maybe_update(1, 0).is_none());
    assert!(tracker.finish(1, 10_000).is_none());
}

#[test]
fn finish_bypasses_the_rate_limit() {
    let mut tracker = ProgressTracker::new(true, true, 30000, None, 0);
    assert!(tracker.maybe_update(1, 0).is_some());
    let line = tracker.finish(2, 100).unwrap();
    assert!(line.starts_with('\r'));
    assert!(line.ends_with('\n'));
    let mut log = ProgressTracker::new(true, false, 30000, None, 0);
    assert!(log.maybe_update(1, 0).is_some());
    let line = log.finish(2, 100).unwrap();
    assert!(line.starts_with("Progress: "));
    assert!(!line.ends_with('\n'));
}

#[test]
fn zero_rate_is_clamped() {
    let tracker = ProgressTracker::new(true, false, 0, None, 0);
    assert_eq!(tracker.fps_millis, 1);
}
