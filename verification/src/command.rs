//! The process executor: the data model of an external command, the decoding
//! of what it printed, and the classification of every way a run can end.

use vstd::prelude::*;
use vstd::utf8::decode_utf8;
use vstd::utf8::valid_utf8;

use crate::text::best_effort_decode_to_string;
use crate::text::drop_enclosing_new_lines;
use crate::text::lossy_decode;
use crate::text::lossy_marker;
use crate::text::trim_newlines;

verus! {

/// One external command: the program to start and its argument list.
pub struct CommandSpec {
    pub program: String,
    pub args: Vec<String>,
}

impl CommandSpec {
    /// The full command line as character sequences, program first.
    pub open spec fn argv(self) -> Seq<Seq<char>> {
        seq![self.program@] + self.args.deep_view()
    }
}

/// What a finished subprocess left behind: its exit code, when the OS
/// reported one, and its decoded, trimmed output blocks.
pub struct CommandResult {
    pub exit_code: Option<i32>,
    pub stdout: String,
    pub stderr: String,
}

/// How an attempt to run a subprocess ended, as the surrounding program
/// observed it: either the OS refused to start it, or it ran and exited.
pub enum ProcessOutcome {
    /// The process could not be started; carries the OS error text.
    LaunchFailed(String),
    /// The process ran; `code` is `None` when it was killed without an exit
    /// code. The output blocks are the raw captured bytes.
    Exited { code: Option<i32>, stdout: Vec<u8>, stderr: Vec<u8> },
}

/// Every failure the backup run can report.
pub enum BackupError {
    /// The OS could not start a subprocess; carries the OS error text.
    LaunchError(String),
    /// A subprocess ran and signalled failure; carries its result.
    NonZeroExit(CommandResult),
    /// A mount-point path exists but is not a directory.
    PathConflict(String),
    /// The OS refused a directory operation (create or remove); carries the
    /// path and the OS error text.
    DirectoryError(String, String),
    /// The effective user is not privileged.
    PrivilegeError,
    /// The snapshot volume was created but mounting it failed: no release
    /// handle exists, and an operator must remove the volume by hand.
    PartialMountFailure {
        vol_group: String,
        snapshot_name: String,
        device: String,
        cause: Box<BackupError>,
    },
}

/// The characters a captured output block is logged and returned as: decoded
/// exactly when valid UTF-8, lossily and marked otherwise, and stripped of
/// its enclosing newline runs either way.
pub open spec fn decoded_output(bytes: Seq<u8>) -> Seq<char> {
    if valid_utf8(bytes) {
        trim_newlines(decode_utf8(bytes))
    } else {
        trim_newlines(lossy_marker() + lossy_decode(bytes))
    }
}

/// Whether an outcome counts as success: the process ran and exited with
/// code zero. A process killed without an exit code is never a success.
pub open spec fn outcome_succeeded(outcome: ProcessOutcome) -> bool {
    outcome matches ProcessOutcome::Exited { code: Some(0i32), .. }
}

/// The error that classifying a failed outcome produces: a launch failure
/// becomes `LaunchError` with the OS error text, and any unsuccessful exit
/// becomes `NonZeroExit` carrying the exact exit code and the decoded,
/// trimmed output blocks.
pub open spec fn classified_error(e: BackupError, outcome: ProcessOutcome) -> bool {
    match outcome {
        ProcessOutcome::LaunchFailed(m) => e == BackupError::LaunchError(m),
        ProcessOutcome::Exited { code, stdout, stderr } => e matches BackupError::NonZeroExit(cr)
            && cr.exit_code == code && cr.stdout@ == decoded_output(stdout@) && cr.stderr@
            == decoded_output(stderr@),
    }
}

/// Classify how a subprocess run ended. Success is declared only when the
/// process both launched and exited with code zero; every other outcome is a
/// typed failure, never a silent pass-through.
pub fn run_success(outcome: ProcessOutcome) -> (r: Result<CommandResult, BackupError>)
    ensures
        r is Ok <==> outcome_succeeded(outcome),
        outcome_succeeded(outcome) ==> (outcome matches ProcessOutcome::Exited {
            code,
            stdout,
            stderr,
        } && (r matches Ok(cr) && cr.exit_code == code && cr.stdout@ == decoded_output(stdout@)
            && cr.stderr@ == decoded_output(stderr@))),
        !outcome_succeeded(outcome) ==> (r matches Err(e) && classified_error(e, outcome)),
{
    match outcome {
        ProcessOutcome::LaunchFailed(e) => Err(BackupError::LaunchError(e)),
        ProcessOutcome::Exited { code, stdout, stderr } => {
            let out = drop_enclosing_new_lines(best_effort_decode_to_string(stdout));
            let err = drop_enclosing_new_lines(best_effort_decode_to_string(stderr));
            let success = match code {
                Some(c) => c == 0,
                None => false,
            };
            let cr = CommandResult { exit_code: code, stdout: out, stderr: err };
            if success {
                Ok(cr)
            } else {
                Err(BackupError::NonZeroExit(cr))
            }
        },
    }
}

} // verus!
