use framepipe::bridge::decoder_args;
use framepipe::bridge::encoder_args;
use framepipe::bridge::frame_from_read;
use framepipe::bridge::process_exit_outcome;
use framepipe::driver::run;
use framepipe::driver::should_infer;
use framepipe::driver::DriverAction;
use framepipe::driver::DriverEvent;
use framepipe::driver::FrameSource;
use framepipe::driver::PipelineDriver;
use framepipe::errors::PipelineError;

#[test]
fn decoder_arguments_map_the_video_stream_raw() {
    let args = decoder_args("in.mp4", 640, 480, false);
    let expected: Vec<String> = [
        "-hide_banner", "-loglevel", "error", "-i", "in.mp4", "-map", "0:v:0", "-an", "-sn",
        "-dn", "-vsync", "0", "-f", "rawvideo", "-pix_fmt", "rgb24", "-",
    ]
    .iter()
    .map(|s| s.to_string())
    .collect();
    assert_eq!(args, expected);
}

#[test]
fn decoder_arguments_insert_the_rescale_filter() {
    let args = decoder_args("clip.mov", 1280, 720, true);
    let pos = args.iter().position(|a| a == "-vf").unwrap();
    assert_eq!(args[pos + 1], "scale=1280:720");
    assert_eq!(args[pos + 2], "-vsync");
}

#[test]
fn encoder_arguments_fix_geometry_rate_and_codec() {
    let args = encoder_args("out/video.mp4", 1280, 720, 29970);
    let expected: Vec<String> = [
        "-hide_banner", "-loglevel", "error", "-y", "-f", "rawvideo", "-pix_fmt", "rgb24",
        "-video_size", "1280x720", "-framerate", "29.970", "-i", "-", "-an", "-sn", "-dn",
        "-c:v", "libx264", "-preset", "veryfast", "-crf", "23", "-pix_fmt", "yuv420p",
        "out/video.mp4",
    ]
    .iter()
    .map(|s| s.to_string())
    .collect();
    assert_eq!(args, expected);
}

#[test]
fn whole_frames_pass_through() {
    let buf = vec![7u8; 2 * 2 * 3];
    let frame = frame_from_read(2, 2, buf, 12).unwrap().unwrap();
    assert_eq!(frame.width, 2);
    assert_eq!(frame.data.len(), 12);
}

#[test]
fn clean_end_of_stream_is_none_not_an_error() {
    let buf = vec![0u8; 2 * 2 * 3];
    assert!(frame_from_read(2, 2, buf, 0).unwrap().is_none());
}

#[test]
fn eof_mid_frame_is_a_truncated_stream() {
    let buf = vec![0u8; 640 * 480 * 3];
    let err = frame_from_read(640, 480, buf, 10).unwrap_err();
    assert!(matches!(err, PipelineError::TruncatedStream { got: 10, expected: 921600 }));
    assert_eq!(err.kind(), "truncated stream");
}

#[test]
fn nonzero_exit_carries_the_diagnostic_tail() {
    assert!(process_exit_outcome(true, "").is_ok());
    let err = process_exit_outcome(false, "  codec not found \n").unwrap_err();
    match err {
        PipelineError::ExternalProcess(m) => assert_eq!(m, "codec not found"),
        other => panic!("unexpected error: {:?}", other),
    }
}

#[test]
fn cadence_rule_is_every_kth_frame() {
    assert!(!should_infer(1, 3));
    assert!(!should_infer(2, 3));
    assert!(should_infer(3, 3));
    assert!(should_infer(6, 3));
    assert!(!should_infer(5, 0));
    assert!(should_infer(1, 1));
}

#[test]
fn cadence_three_annotates_every_third_frame() {
    let events = vec![
        DriverEvent::FrameArrived,
        DriverEvent::FrameArrived,
        DriverEvent::FrameArrived,
        DriverEvent::FrameArrived,
        DriverEvent::FrameArrived,
        DriverEvent::FrameArrived,
        DriverEvent::EndOfStream,
    ];
    let (state, actions) = run(3, false, true, &events);
    let expected = vec![
        DriverAction::UpdateProgress(1),
        DriverAction::Display(FrameSource::Raw),
        DriverAction::ReadFrame,
        DriverAction::UpdateProgress(2),
        DriverAction::Display(FrameSource::Raw),
        DriverAction::ReadFrame,
        DriverAction::UpdateProgress(3),
        DriverAction::RunInference,
        DriverAction::Display(FrameSource::NewAnnotation),
        DriverAction::ReadFrame,
        DriverAction::UpdateProgress(4),
        DriverAction::Display(FrameSource::LastAnnotated),
        DriverAction::ReadFrame,
        DriverAction::UpdateProgress(5),
        DriverAction::Display(FrameSource::LastAnnotated),
        DriverAction::ReadFrame,
        DriverAction::UpdateProgress(6),
        DriverAction::RunInference,
        DriverAction::Display(FrameSource::NewAnnotation),
        DriverAction::ReadFrame,
        DriverAction::FinishProgress(6),
        DriverAction::WaitDecoder,
    ];
    assert_eq!(actions, expected);
    assert!(state.done);
    assert!(!state.stopped_early);
    assert_eq!(state.frame_idx, 6);
}

#[test]
fn cadence_zero_never_infers() {
    let events = vec![
        DriverEvent::FrameArrived,
        DriverEvent::FrameArrived,
        DriverEvent::FrameArrived,
        DriverEvent::EndOfStream,
    ];
    let (state, actions) = run(0, true, false, &events);
    assert!(actions.iter().all(|a| *a != DriverAction::RunInference));
    assert!(actions.iter().all(|a| *a != DriverAction::WriteEncoder(FrameSource::LastAnnotated)));
    assert!(actions.iter().all(|a| *a != DriverAction::WriteEncoder(FrameSource::NewAnnotation)));
    assert_eq!(
        actions.iter().filter(|a| **a == DriverAction::WriteEncoder(FrameSource::Raw)).count(),
        3
    );
    assert!(!state.has_annotation);
}

#[test]
fn encoder_is_closed_before_waiting_even_on_cancel() {
    let events = vec![DriverEvent::FrameArrived, DriverEvent::Quit];
    let (state, actions) = run(3, true, true, &events);
    let close = actions.iter().position(|a| *a == DriverAction::CloseEncoderInput).unwrap();
    let wait = actions.iter().position(|a| *a == DriverAction::WaitEncoder).unwrap();
    assert_eq!(wait, close + 1);
    assert_eq!(actions[actions.len() - 2], DriverAction::FinishProgress(1));
    assert_eq!(actions[actions.len() - 1], DriverAction::KillDecoder);
    assert!(state.stopped_early);
}

#[test]
fn clean_exhaustion_waits_for_the_decoder() {
    let events = vec![DriverEvent::EndOfStream];
    let (state, actions) = run(3, true, false, &events);
    assert_eq!(
        actions,
        vec![
            DriverAction::CloseEncoderInput,
            DriverAction::WaitEncoder,
            DriverAction::FinishProgress(0),
            DriverAction::WaitDecoder,
        ]
    );
    assert!(!state.stopped_early);
}

#[test]
fn events_after_teardown_are_ignored() {
    let events = vec![DriverEvent::EndOfStream, DriverEvent::FrameArrived];
    let (state, actions) = run(0, false, false, &events);
    assert_eq!(actions, vec![DriverAction::FinishProgress(0), DriverAction::WaitDecoder]);
    assert_eq!(state.frame_idx, 0);
}

#[test]
fn fresh_driver_starts_at_frame_zero() {
    let d = PipelineDriver::new(3, true, false);
    assert_eq!(d.frame_idx, 0);
    assert!(!d.done);
    assert!(!d.has_annotation);
}
