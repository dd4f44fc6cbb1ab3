use framegrab::melt::{
    cancel_melt_render, check_melt, find_melt, job_file_name, melt_candidates, render_arguments,
    run_melt_raw, run_melt_render, validate_arguments, validate_mlt_xml, Candidate, MeltRun,
    MeltState, RenderOptions,
};

fn no_options() -> RenderOptions {
    RenderOptions {
        video_codec: None,
        audio_codec: None,
        audio_bitrate: None,
        crf: None,
        width: None,
        height: None,
        frame_rate: None,
    }
}

fn exited(success: bool, code: Option<i32>, stdout: &str, stderr: &str) -> MeltRun {
    MeltRun::Exited { success, code, stdout: stdout.to_string(), stderr: stderr.to_string() }
}

fn tried(works: &[bool]) -> Vec<Candidate> {
    melt_candidates()
        .into_iter()
        .zip(works.iter())
        .map(|(path, works)| Candidate { path, works: *works })
        .collect()
}

#[test]
fn candidates_in_order() {
    assert_eq!(
        melt_candidates(),
        vec!["melt", "/usr/bin/melt", "/usr/local/bin/melt", "/opt/homebrew/bin/melt"]
    );
}

#[test]
fn find_takes_the_first_candidate_that_works() {
    assert_eq!(find_melt(&tried(&[true]), None), Some("melt".to_string()));
    assert_eq!(
        find_melt(&tried(&[false, false, true, true]), Some("/snap/bin/melt")),
        Some("/usr/local/bin/melt".to_string())
    );
    assert_eq!(
        find_melt(&tried(&[false, true]), None),
        Some("/usr/bin/melt".to_string())
    );
}

#[test]
fn find_falls_back_to_the_located_place() {
    assert_eq!(
        find_melt(&tried(&[false, false, false, false]), Some("/snap/bin/melt")),
        Some("/snap/bin/melt".to_string())
    );
    assert_eq!(find_melt(&vec![], Some("/snap/bin/melt")), Some("/snap/bin/melt".to_string()));
}

#[test]
fn find_gives_nothing_when_nothing_works() {
    assert_eq!(find_melt(&tried(&[false, false, false, false]), None), None);
    assert_eq!(find_melt(&tried(&[false, false, false, false]), Some("")), None);
    assert_eq!(find_melt(&vec![], None), None);
}

#[test]
fn check_reports_the_tool() {
    let result = check_melt(Some("/usr/bin/melt"), Some("melt 7.22.0"));
    assert!(result.available);
    assert_eq!(result.path, Some("/usr/bin/melt".to_string()));
    assert_eq!(result.version, Some("melt 7.22.0".to_string()));
    assert_eq!(result.error, None);
    let result = check_melt(Some("melt"), None);
    assert!(result.available);
    assert_eq!(result.version, None);
}

#[test]
fn check_reports_a_missing_tool() {
    let result = check_melt(None, Some("ignored"));
    assert!(!result.available);
    assert_eq!(result.path, None);
    assert_eq!(result.version, None);
    assert_eq!(
        result.error,
        Some("melt not found. Install with: sudo apt install melt".to_string())
    );
}

#[test]
fn job_file_is_named_after_the_job() {
    assert_eq!(job_file_name("job-42"), "job-42.mlt");
    assert_eq!(job_file_name(""), ".mlt");
}

#[test]
fn render_arguments_without_options() {
    assert_eq!(
        render_arguments("/tmp/j.mlt", "/out/v.mp4", &no_options()),
        vec!["/tmp/j.mlt", "preset=medium", "-consumer", "avformat:/out/v.mp4", "-progress"]
    );
}

#[test]
fn render_arguments_with_every_option() {
    let options = RenderOptions {
        video_codec: Some("libx264".to_string()),
        audio_codec: Some("aac".to_string()),
        audio_bitrate: Some("192k".to_string()),
        crf: Some(23),
        width: Some(1920),
        height: Some(1080),
        frame_rate: Some(30),
    };
    assert_eq!(
        render_arguments("/tmp/j.mlt", "/out/v.mp4", &options),
        vec![
            "/tmp/j.mlt",
            "vcodec=libx264",
            "acodec=aac",
            "ab=192k",
            "crf=23",
            "width=1920",
            "height=1080",
            "frame_rate_num=30",
            "preset=medium",
            "-consumer",
            "avformat:/out/v.mp4",
            "-progress",
        ]
    );
}

#[test]
fn render_arguments_with_some_options() {
    let mut options = no_options();
    options.audio_codec = Some("".to_string());
    options.crf = Some(0);
    options.height = Some(u32::MAX);
    assert_eq!(
        render_arguments("x", "", &options),
        vec![
            "x",
            "acodec=",
            "crf=0",
            "height=4294967295",
            "preset=medium",
            "-consumer",
            "avformat:",
            "-progress",
        ]
    );
}

#[test]
fn validate_arguments_write_xml() {
    assert_eq!(validate_arguments("/tmp/validate_temp.mlt"), vec![
        "/tmp/validate_temp.mlt",
        "-consumer",
        "xml"
    ]);
}

#[test]
fn render_result_after_success() {
    let result = run_melt_render("/out/v.mp4", &exited(true, Some(0), "", "warnings")).unwrap();
    assert!(result.success);
    assert_eq!(result.error, None);
    assert_eq!(result.output_path, Some("/out/v.mp4".to_string()));
}

#[test]
fn render_result_after_failure() {
    let result = run_melt_render("/out/v.mp4", &exited(false, Some(1), "", "boom")).unwrap();
    assert!(!result.success);
    assert_eq!(result.error, Some("melt exited with error: boom".to_string()));
    assert_eq!(result.output_path, None);
}

#[test]
fn render_that_did_not_start_is_an_error() {
    let err = run_melt_render("/out/v.mp4", &MeltRun::NotStarted("not found".to_string()))
        .unwrap_err();
    assert_eq!(err, "Failed to run melt: not found");
}

#[test]
fn raw_result_hands_on_output_and_code() {
    let result = run_melt_raw(&exited(false, Some(3), "out", "err")).unwrap();
    assert_eq!(result.stdout, "out");
    assert_eq!(result.stderr, "err");
    assert_eq!(result.exit_code, 3);
}

#[test]
fn raw_result_without_code_is_minus_one() {
    let result = run_melt_raw(&exited(false, None, "", "killed")).unwrap();
    assert_eq!(result.exit_code, -1);
}

#[test]
fn raw_run_that_did_not_start_is_an_error() {
    let err = run_melt_raw(&MeltRun::NotStarted("denied".to_string())).unwrap_err();
    assert_eq!(err, "Failed to run melt: denied");
}

#[test]
fn validation_without_tool() {
    let result = validate_mlt_xml(None);
    assert!(!result.valid);
    assert_eq!(result.error, Some("melt not found".to_string()));
}

#[test]
fn validation_of_a_valid_description() {
    let result = validate_mlt_xml(Some(&exited(true, Some(0), "<mlt/>", "noise")));
    assert!(result.valid);
    assert_eq!(result.error, None);
}

#[test]
fn validation_of_an_invalid_description() {
    let result = validate_mlt_xml(Some(&exited(false, Some(1), "", "parse error")));
    assert!(!result.valid);
    assert_eq!(result.error, Some("parse error".to_string()));
}

#[test]
fn validation_that_did_not_start() {
    let result = validate_mlt_xml(Some(&MeltRun::NotStarted("denied".to_string())));
    assert!(!result.valid);
    assert_eq!(result.error, Some("Failed to validate: denied".to_string()));
}

#[test]
fn new_state_has_no_jobs() {
    let state = MeltState::new();
    assert_eq!(state.is_cancelled("job"), None);
}

#[test]
fn job_begins_unmarked_and_ends_forgotten() {
    let mut state = MeltState::new();
    state.begin_job("job");
    assert_eq!(state.is_cancelled("job"), Some(false));
    state.end_job("job");
    assert_eq!(state.is_cancelled("job"), None);
    state.end_job("job");
    assert_eq!(state.is_cancelled("job"), None);
}

#[test]
fn cancel_marks_a_running_job() {
    let mut state = MeltState::new();
    state.begin_job("a");
    state.begin_job("b");
    assert!(cancel_melt_render("a", &mut state));
    assert_eq!(state.is_cancelled("a"), Some(true));
    assert_eq!(state.is_cancelled("b"), Some(false));
    assert!(cancel_melt_render("a", &mut state));
    assert_eq!(state.is_cancelled("a"), Some(true));
}

#[test]
fn cancel_of_an_unknown_job_changes_nothing() {
    let mut state = MeltState::new();
    state.begin_job("a");
    assert!(!cancel_melt_render("zzz", &mut state));
    assert_eq!(state.is_cancelled("zzz"), None);
    assert_eq!(state.is_cancelled("a"), Some(false));
}

#[test]
fn beginning_a_job_again_clears_its_mark() {
    let mut state = MeltState::new();
    state.begin_job("a");
    assert!(cancel_melt_render("a", &mut state));
    state.begin_job("a");
    assert_eq!(state.is_cancelled("a"), Some(false));
}
