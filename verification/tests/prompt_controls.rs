use framepipe::errors::PipelineError;
use framepipe::prompt::split_prompt_line;

#[test]
fn empty_line_keeps_current_prompts() {
    assert_eq!(split_prompt_line(""), None);
    assert_eq!(split_prompt_line("   \n"), None);
}

#[test]
fn parts_are_split_trimmed_and_filtered() {
    assert_eq!(split_prompt_line("shoe"), Some(vec!["shoe".to_string()]));
    assert_eq!(
        split_prompt_line(" shoe |  hat|| "),
        Some(vec!["shoe".to_string(), "hat".to_string()])
    );
    assert_eq!(
        split_prompt_line("pos:480,290,110,360 | cat"),
        Some(vec!["pos:480,290,110,360".to_string(), "cat".to_string()])
    );
}

#[test]
fn all_separator_line_yields_no_parts() {
    assert_eq!(split_prompt_line("|"), Some(vec![]));
}

#[test]
fn error_kinds_are_stable_labels() {
    assert_eq!(PipelineError::Launch("ffmpeg".to_string()).kind(), "launch");
    assert_eq!(PipelineError::TruncatedStream { got: 1, expected: 2 }.kind(), "truncated stream");
    assert_eq!(PipelineError::Size { got: 1, expected: 2 }.kind(), "size");
    assert_eq!(PipelineError::ExternalProcess(String::new()).kind(), "external process");
    assert_eq!(PipelineError::Io(String::new()).kind(), "io");
}
