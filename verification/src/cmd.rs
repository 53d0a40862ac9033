//! What a finished external command gave back, and how a command that must
//! succeed turns it into its output or an error.
use vstd::prelude::*;

use crate::error::{ErrorKind, TheyaError};
use crate::text::{concat, i32_to_string, join, signed_decimal, spec_join, views};

verus! {

/// What a finished command gave back: whether it exited with success, its
/// exit code (absent when a signal ended it), and its standard output and
/// standard error.
#[derive(Debug)]
pub struct CommandOutput {
    pub success: bool,
    pub code: Option<i32>,
    pub stdout: String,
    pub stderr: String,
}

/// The exit code as `code().unwrap_or_default()` gives it.
pub open spec fn code_or_zero(code: Option<i32>) -> int {
    match code {
        Some(c) => c as int,
        None => 0,
    }
}

/// The message of a command that had to succeed and did not:
/// `Command `<cmd> <args>` failed with rc <code> and message: <stderr>`,
/// the arguments joined by spaces.
pub open spec fn spec_failure_message(
    cmd: Seq<char>,
    args: Seq<Seq<char>>,
    code: Option<i32>,
    stderr: Seq<char>,
) -> Seq<char> {
    "Command `"@ + cmd + " "@ + spec_join(args, " "@) + "` failed with rc "@ + signed_decimal(
        code_or_zero(code),
    ) + " and message: "@ + stderr
}

/// The outcome of a command that must succeed: its standard output when it
/// succeeded, an error of kind `Bug` that quotes the command line, exit code
/// and standard error when it failed, and the error of running it when it
/// could not be run.
pub fn run_command_checked(
    cmd: &str,
    args: &Vec<String>,
    output: Result<CommandOutput, TheyaError>,
) -> (res: Result<String, TheyaError>)
    ensures
        match output {
            Err(e) => res == Err::<String, TheyaError>(e),
            Ok(out) => if out.success {
                res == Ok::<String, TheyaError>(out.stdout)
            } else {
                res matches Err(e) && e.kind == ErrorKind::Bug && e.msg@ == spec_failure_message(
                    cmd@,
                    views(args@),
                    out.code,
                    out.stderr@,
                )
            },
        },
{
    match output {
        Err(e) => Err(e),
        Ok(out) => {
            if out.success {
                Ok(out.stdout)
            } else {
                let code = match out.code {
                    Some(c) => c,
                    None => 0,
                };
                let mut msg = concat("Command `", cmd);
                msg.append(" ");
                let joined = join(args, " ");
                msg.append(joined.as_str());
                msg.append("` failed with rc ");
                let rc = i32_to_string(code);
                msg.append(rc.as_str());
                msg.append(" and message: ");
                msg.append(out.stderr.as_str());
                Err(TheyaError::new(ErrorKind::Bug, msg))
            }
        },
    }
}

} // verus!
