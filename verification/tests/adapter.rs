use ffmpeg_adapter::invocation::{
    extract_audio_invocation, merge_audio_video_invocation, verify_ffmpeg_invocation, StdioPolicy,
};
use ffmpeg_adapter::outcome::{
    media_operation_result, verify_ffmpeg_result, LaunchFailure, Outcome,
};

#[test]
fn verify_invocation_is_version_check() {
    let inv = verify_ffmpeg_invocation("/usr/bin/ffmpeg");
    assert_eq!(inv.program, "/usr/bin/ffmpeg");
    assert_eq!(inv.args, vec!["-version"]);
    assert_eq!(inv.stdio, StdioPolicy::Capture);
}

#[test]
fn extract_invocation_exact_arguments() {
    let inv = extract_audio_invocation("/usr/bin/ffmpeg", "clip.mkv", "clip.m4a");
    assert_eq!(inv.program, "/usr/bin/ffmpeg");
    assert_eq!(
        inv.args,
        vec!["-y", "-i", "clip.mkv", "-vn", "-acodec", "copy", "clip.m4a"]
    );
    assert_eq!(inv.stdio, StdioPolicy::Inherit);
}

#[test]
fn merge_invocation_exact_arguments() {
    let inv = merge_audio_video_invocation("ffmpeg", "video.mp4", "audio.m4a", "merged.mp4");
    assert_eq!(inv.program, "ffmpeg");
    assert_eq!(
        inv.args,
        vec![
            "-y",
            "-i",
            "video.mp4",
            "-i",
            "audio.m4a",
            "-c:v",
            "copy",
            "-c:a",
            "aac",
            "merged.mp4"
        ]
    );
    assert_eq!(inv.stdio, StdioPolicy::Inherit);
}

#[test]
fn paths_with_metacharacters_stay_single_verbatim_arguments() {
    let hostile_input = "my video (1).mp4";
    let hostile_output = "; rm -rf /";
    let inv = extract_audio_invocation("/opt/tools/ff mpeg", hostile_input, hostile_output);
    assert_eq!(inv.program, "/opt/tools/ff mpeg");
    assert_eq!(inv.args.len(), 7);
    assert_eq!(inv.args[2], hostile_input);
    assert_eq!(inv.args[6], hostile_output);
}

#[test]
fn quoted_paths_stay_single_verbatim_arguments() {
    let video = "it's \"raw\".mov";
    let audio = "$HOME/`track`.wav";
    let output = "out | put.mp4";
    let inv = merge_audio_video_invocation("ffmpeg", video, audio, output);
    assert_eq!(inv.args.len(), 10);
    assert_eq!(inv.args[2], video);
    assert_eq!(inv.args[4], audio);
    assert_eq!(inv.args[9], output);
}

#[test]
fn verify_true_whenever_tool_launched() {
    assert!(verify_ffmpeg_result(Outcome::Completed(true)));
    assert!(verify_ffmpeg_result(Outcome::Completed(false)));
}

#[test]
fn verify_false_on_launch_failure() {
    assert!(!verify_ffmpeg_result(Outcome::LaunchFailed));
}

#[test]
fn media_operation_reports_exit_status() {
    assert_eq!(media_operation_result(Outcome::Completed(true)), Ok(true));
    assert_eq!(media_operation_result(Outcome::Completed(false)), Ok(false));
}

#[test]
fn media_operation_surfaces_launch_failure_as_error() {
    assert_eq!(
        media_operation_result(Outcome::LaunchFailed),
        Err(LaunchFailure)
    );
}

#[test]
fn repeated_requests_build_identical_commands() {
    let first = extract_audio_invocation("/usr/bin/ffmpeg", "clip.mkv", "clip.m4a");
    let second = extract_audio_invocation("/usr/bin/ffmpeg", "clip.mkv", "clip.m4a");
    assert_eq!(first, second);
    assert_eq!(first.args[0], "-y");

    let first = merge_audio_video_invocation("ffmpeg", "v.mp4", "a.m4a", "out.mp4");
    let second = merge_audio_video_invocation("ffmpeg", "v.mp4", "a.m4a", "out.mp4");
    assert_eq!(first, second);
    assert_eq!(first.args[0], "-y");
}
