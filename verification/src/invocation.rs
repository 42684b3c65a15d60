use vstd::prelude::*;

verus! {

/// How the subprocess's standard streams are handled: either captured
/// (nothing reaches the caller's stdout/stderr) or inherited from the
/// caller (progress and errors stay visible).
#[derive(Clone, Copy, Debug, PartialEq, Eq, Structural)]
pub enum StdioPolicy {
    Capture,
    Inherit,
}

/// One planned subprocess invocation: the program to launch, its
/// arguments as a discrete ordered list, and the stream policy.
///
/// The argument list is handed to the process-launch mechanism element
/// by element and is never concatenated into a shell command string, so
/// no shell ever interprets the paths it carries.
#[derive(Debug, PartialEq, Eq)]
pub struct Invocation {
    pub program: String,
    pub args: Vec<String>,
    pub stdio: StdioPolicy,
}

/// The character sequences carried by an argument list.
pub open spec fn arg_views(args: Seq<String>) -> Seq<Seq<char>> {
    args.map_values(|s: String| s@)
}

/// Arguments of the version check: ask the tool for its version.
pub open spec fn version_args() -> Seq<Seq<char>> {
    seq!["-version"@]
}

/// Arguments of audio extraction: overwrite the output without
/// prompting, read the input, drop the video stream, copy the audio
/// stream without re-encoding, write to the output path.
pub open spec fn extract_audio_args(input: Seq<char>, output: Seq<char>) -> Seq<Seq<char>> {
    seq!["-y"@, "-i"@, input, "-vn"@, "-acodec"@, "copy"@, output]
}

/// Arguments of the merge: overwrite the output without prompting, read
/// the video and audio inputs, copy the video stream without
/// re-encoding, re-encode the audio stream to AAC, write to the output
/// path.
pub open spec fn merge_audio_video_args(
    video: Seq<char>,
    audio: Seq<char>,
    output: Seq<char>,
) -> Seq<Seq<char>> {
    seq!["-y"@, "-i"@, video, "-i"@, audio, "-c:v"@, "copy"@, "-c:a"@, "aac"@, output]
}

/// Builds the invocation that checks the tool's presence: the
/// executable run with the single version argument, output captured so
/// the check stays silent.
pub fn verify_ffmpeg_invocation(ffmpeg_path: &str) -> (r: Invocation)
    ensures
        r.program@ == ffmpeg_path@,
        arg_views(r.args@) == version_args(),
        r.stdio == StdioPolicy::Capture,
{
    let mut args: Vec<String> = Vec::new();
    args.push(String::from_str("-version"));
    let r = Invocation { program: String::from_str(ffmpeg_path), args, stdio: StdioPolicy::Capture };
    proof {
        assert(arg_views(r.args@) =~= version_args());
    }
    r
}

/// Builds the invocation that extracts the audio stream of
/// `input_path` into `output_path` without re-encoding it. Streams are
/// inherited so the tool's progress and errors stay visible to the
/// caller.
pub fn extract_audio_invocation(
    ffmpeg_path: &str,
    input_path: &str,
    output_path: &str,
) -> (r: Invocation)
    ensures
        r.program@ == ffmpeg_path@,
        arg_views(r.args@) == extract_audio_args(input_path@, output_path@),
        r.stdio == StdioPolicy::Inherit,
{
    let mut args: Vec<String> = Vec::new();
    args.push(String::from_str("-y"));
    args.push(String::from_str("-i"));
    args.push(String::from_str(input_path));
    args.push(String::from_str("-vn"));
    args.push(String::from_str("-acodec"));
    args.push(String::from_str("copy"));
    args.push(String::from_str(output_path));
    let r = Invocation { program: String::from_str(ffmpeg_path), args, stdio: StdioPolicy::Inherit };
    proof {
        assert(arg_views(r.args@) =~= extract_audio_args(input_path@, output_path@));
    }
    r
}

/// Builds the invocation that merges the video stream of `video_path`
/// (copied without re-encoding) with the audio stream of `audio_path`
/// (re-encoded to AAC) into `output_path`. Streams are inherited so the
/// tool's progress and errors stay visible to the caller.
pub fn merge_audio_video_invocation(
    ffmpeg_path: &str,
    video_path: &str,
    audio_path: &str,
    output_path: &str,
) -> (r: Invocation)
    ensures
        r.program@ == ffmpeg_path@,
        arg_views(r.args@) == merge_audio_video_args(video_path@, audio_path@, output_path@),
        r.stdio == StdioPolicy::Inherit,
{
    let mut args: Vec<String> = Vec::new();
    args.push(String::from_str("-y"));
    args.push(String::from_str("-i"));
    args.push(String::from_str(video_path));
    args.push(String::from_str("-i"));
    args.push(String::from_str(audio_path));
    args.push(String::from_str("-c:v"));
    args.push(String::from_str("copy"));
    args.push(String::from_str("-c:a"));
    args.push(String::from_str("aac"));
    args.push(String::from_str(output_path));
    let r = Invocation { program: String::from_str(ffmpeg_path), args, stdio: StdioPolicy::Inherit };
    proof {
        assert(arg_views(r.args@) =~= merge_audio_video_args(
            video_path@,
            audio_path@,
            output_path@,
        ));
    }
    r
}

/// Injection safety: whatever characters a caller-supplied path holds —
/// spaces, quotes, shell metacharacters — it stands unmodified as one
/// discrete element of the argument list, at a fixed position. Nothing
/// is quoted, escaped, split or joined; no shell ever sees the list.
pub proof fn lemma_paths_passed_verbatim(
    input: Seq<char>,
    video: Seq<char>,
    audio: Seq<char>,
    output: Seq<char>,
)
    ensures
        extract_audio_args(input, output)[2] == input,
        extract_audio_args(input, output)[6] == output,
        extract_audio_args(input, output).len() == 7,
        merge_audio_video_args(video, audio, output)[2] == video,
        merge_audio_video_args(video, audio, output)[4] == audio,
        merge_audio_video_args(video, audio, output)[9] == output,
        merge_audio_video_args(video, audio, output).len() == 10,
{
}

/// Every media operation asks the tool to overwrite a pre-existing
/// output without prompting: the overwrite flag is always the first
/// argument, for any paths. Repeating an operation with the same
/// inputs and output therefore never stops at a prompt.
pub proof fn lemma_overwrite_always_requested(
    input: Seq<char>,
    video: Seq<char>,
    audio: Seq<char>,
    output: Seq<char>,
)
    ensures
        extract_audio_args(input, output)[0] == "-y"@,
        merge_audio_video_args(video, audio, output)[0] == "-y"@,
{
}

/// Building an invocation is deterministic: any two invocations that
/// answer the same request — same program, same argument views, same
/// stream policy, as each builder's postcondition pins them — are
/// observationally identical. Repeating an operation therefore runs
/// the very same command both times.
pub proof fn lemma_same_request_same_command(
    a: Invocation,
    b: Invocation,
    program: Seq<char>,
    args: Seq<Seq<char>>,
    stdio: StdioPolicy,
)
    requires
        a.program@ == program,
        arg_views(a.args@) == args,
        a.stdio == stdio,
        b.program@ == program,
        arg_views(b.args@) == args,
        b.stdio == stdio,
    ensures
        a.program@ == b.program@,
        arg_views(a.args@) == arg_views(b.args@),
        a.stdio == b.stdio,
{
}

} // verus!
