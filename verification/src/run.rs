//! The run orchestrator's decisions: the privilege gate, the per-source
//! transaction identifier, and the process exit status.

use vstd::prelude::*;

use crate::command::BackupError;
use crate::text::decimal_string;
use crate::text::digits_val;
use crate::text::is_digits;
use crate::text::parse_decimal;
use crate::text::two_digit_chars;

verus! {

/// The one non-zero exit status the process reports for any failure; all
/// diagnostic detail lives in the log stream, not in the exit code.
pub const EXIT_CODE_GENERAL: i32 = 1;

/// The per-source transaction identifier: the run identifier, a dash, and
/// the source's index padded to two digits.
pub open spec fn source_run_id_chars(run_id: Seq<char>, index: nat) -> Seq<char> {
    run_id + "-"@ + two_digit_chars(index)
}

/// Derive the identifier that tags one source's transaction within a run.
pub fn source_run_id(run_id: &str, index: usize) -> (r: String)
    ensures
        r@ == source_run_id_chars(run_id@, index as nat),
{
    let digits = decimal_string(index);
    let with_sep = String::from_str(run_id).concat("-");
    let padded = if index < 10 {
        with_sep.concat("0")
    } else {
        with_sep
    };
    let r = padded.concat(digits.as_str());
    proof {
        reveal_strlit("0");
        assert(r@ =~= source_run_id_chars(run_id@, index as nat));
    }
    r
}

/// The privilege check passes exactly when the reported user id is a decimal
/// integer reading zero.
pub open spec fn privileged_output(s: Seq<char>) -> bool {
    is_digits(s) && digits_val(s) == 0
}

/// Decide the privilege gate from the trimmed output of the user-id command.
/// Anything but a decimal zero — another user id, or output that is not a
/// decimal integer at all — refuses the run before any snapshot is touched.
pub fn check_privilege(uid_output: &str) -> (r: Result<(), BackupError>)
    ensures
        r is Ok <==> privileged_output(uid_output@),
        r matches Err(e) ==> e == BackupError::PrivilegeError,
{
    match parse_decimal(uid_output) {
        Some(v) => {
            if v == 0 {
                Ok(())
            } else {
                Err(BackupError::PrivilegeError)
            }
        },
        None => Err(BackupError::PrivilegeError),
    }
}

/// The exit status for a finished run: zero exactly on full success.
pub fn process_exit_code(failed: bool) -> (r: i32)
    ensures
        r == 0 <==> !failed,
        failed ==> r == EXIT_CODE_GENERAL,
{
    if failed {
        EXIT_CODE_GENERAL
    } else {
        0
    }
}

} // verus!
