use framepipe::errors::PipelineError;
use framepipe::probe::estimate_total_frames;
use framepipe::probe::ffprobe_duration_millis;
use framepipe::probe::ffprobe_nb_frames;
use framepipe::probe::next_value;
use framepipe::probe::parse_rate_millis;
use framepipe::probe::parse_u64_str;
use framepipe::probe::parse_video_info;
use framepipe::probe::probe_first_value;
use framepipe::probe::total_frames_or_estimate;
use framepipe::probe::trim_str;

#[test]
fn first_value_skips_blank_lines() {
    assert_eq!(probe_first_value("\n  \n  240  \nrest\n"), Some("240".to_string()));
    assert_eq!(probe_first_value("\n   \n\t\n"), None);
    assert_eq!(probe_first_value(""), None);
}

#[test]
fn next_value_returns_the_remainder() {
    let (value, rest) = next_value("1920\n1080\n30/1\n").unwrap();
    assert_eq!(value, "1920");
    assert_eq!(rest, "1080\n30/1\n");
}

#[test]
fn trim_strips_ascii_whitespace() {
    assert_eq!(trim_str("  x  "), "x");
    assert_eq!(trim_str("\r\n"), "");
    assert_eq!(trim_str("a b"), "a b");
}

#[test]
fn integers_parse_with_optional_plus() {
    assert_eq!(parse_u64_str("240"), Some(240));
    assert_eq!(parse_u64_str("+42"), Some(42));
    assert_eq!(parse_u64_str("18446744073709551615"), Some(u64::MAX));
    assert_eq!(parse_u64_str("18446744073709551616"), None);
    assert_eq!(parse_u64_str(""), None);
    assert_eq!(parse_u64_str("+"), None);
    assert_eq!(parse_u64_str("-1"), None);
    assert_eq!(parse_u64_str("12a"), None);
}

#[test]
fn frame_count_field_degrades_gracefully() {
    assert_eq!(ffprobe_nb_frames("  240  "), Some(240));
    assert_eq!(ffprobe_nb_frames("N/A"), None);
    assert_eq!(ffprobe_nb_frames("0"), None);
    assert_eq!(ffprobe_nb_frames(""), None);
    assert_eq!(ffprobe_nb_frames("abc"), None);
}

#[test]
fn duration_field_parses_to_milliseconds() {
    assert_eq!(ffprobe_duration_millis("12.345"), Some(12345));
    assert_eq!(ffprobe_duration_millis("3"), Some(3000));
    assert_eq!(ffprobe_duration_millis(".5"), Some(500));
    assert_eq!(ffprobe_duration_millis("1."), Some(1000));
    assert_eq!(ffprobe_duration_millis("0.0005"), None);
    assert_eq!(ffprobe_duration_millis("N/A"), None);
    assert_eq!(ffprobe_duration_millis("1.2.3"), None);
}

#[test]
fn rates_parse_as_rational_or_decimal() {
    assert_eq!(parse_rate_millis("30000/1001"), Some(29970));
    assert_eq!(parse_rate_millis("24000/1001"), Some(23976));
    assert_eq!(parse_rate_millis("25"), Some(25000));
    assert_eq!(parse_rate_millis("29.97"), Some(29970));
    assert_eq!(parse_rate_millis("30/0"), None);
    assert_eq!(parse_rate_millis(""), None);
    assert_eq!(parse_rate_millis("x/y"), None);
}

#[test]
fn video_info_parses_geometry_and_rate() {
    let info = parse_video_info("1920\n1080\n30000/1001\n").unwrap();
    assert_eq!(info.width, 1920);
    assert_eq!(info.height, 1080);
    assert_eq!(info.fps_millis, 29970);
}

#[test]
fn video_info_falls_back_to_thirty_fps() {
    let info = parse_video_info("640\n480\n").unwrap();
    assert_eq!(info.fps_millis, 30000);
    let info = parse_video_info("640\n480\n0/0\n").unwrap();
    assert_eq!(info.fps_millis, 30000);
}

#[test]
fn video_info_reports_the_missing_field() {
    let err = parse_video_info("").unwrap_err();
    match err {
        PipelineError::Io(m) => assert_eq!(m, "ffprobe output missing width"),
        other => panic!("unexpected error: {:?}", other),
    }
    let err = parse_video_info("1920\nabc\n").unwrap_err();
    match err {
        PipelineError::Io(m) => assert_eq!(m, "failed to parse height from ffprobe"),
        other => panic!("unexpected error: {:?}", other),
    }
}

#[test]
fn totals_round_to_the_nearest_frame() {
    assert_eq!(estimate_total_frames(10000, 29970), Some(300));
    assert_eq!(estimate_total_frames(0, 30000), None);
    assert_eq!(total_frames_or_estimate(Some(5), Some(10000), 30000), Some(5));
    assert_eq!(total_frames_or_estimate(None, Some(10000), 30000), Some(300));
    assert_eq!(total_frames_or_estimate(None, None, 30000), None);
}
