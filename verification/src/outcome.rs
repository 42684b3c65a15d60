use vstd::prelude::*;

verus! {

/// What became of one subprocess invocation: either the process could
/// not be launched at all (path not found, not executable, spawn
/// failure), or it launched, ran to completion, and exited — with
/// `true` for exit status zero.
#[derive(Clone, Copy, Debug, PartialEq, Eq, Structural)]
pub enum Outcome {
    LaunchFailed,
    Completed(bool),
}

/// Translates an outcome under the presence-check policy: the tool
/// counts as present exactly when it could be launched, whatever its
/// exit status. Launch failure is the `false` case by design, never an
/// error: there is nothing further to report.
pub fn verify_ffmpeg_result(outcome: Outcome) -> (r: bool)
    ensures
        r <==> (outcome is Completed),
{
    match outcome {
        Outcome::LaunchFailed => false,
        Outcome::Completed(_) => true,
    }
}

/// The error a media operation reports when its subprocess could not
/// be started at all (executable missing, not executable, permission
/// denied). It is distinct from a completed-but-failed run, which is a
/// `false` result, not an error.
#[derive(Clone, Copy, Debug, PartialEq, Eq, Structural)]
pub struct LaunchFailure;

/// What a media operation (extraction or merge) reports for a given
/// outcome: a launch failure is an explicit error, a completed run is
/// `Ok` with `true` exactly for a zero exit status.
pub open spec fn spec_media_operation_result(outcome: Outcome) -> Result<bool, LaunchFailure> {
    match outcome {
        Outcome::LaunchFailed => Err(LaunchFailure),
        Outcome::Completed(success) => Ok(success),
    }
}

/// Translates an outcome under the media-operation policy shared by
/// audio extraction and merging: `Ok(true)` iff the process launched
/// and exited with status zero, `Ok(false)` if it launched and exited
/// non-zero, and an explicit `LaunchFailure` error — never a plain
/// `false` — if it could not be launched.
pub fn media_operation_result(outcome: Outcome) -> (r: Result<bool, LaunchFailure>)
    ensures
        r == spec_media_operation_result(outcome),
        r is Err <==> (outcome is LaunchFailed),
{
    match outcome {
        Outcome::LaunchFailed => Err(LaunchFailure),
        Outcome::Completed(success) => Ok(success),
    }
}

} // verus!
