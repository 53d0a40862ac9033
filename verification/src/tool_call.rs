//! How a tool call runs. A call starts from the tool and its arguments and
//! goes through at most two effects (check a path, run a command, read or
//! write a file), each asked for by a [`ToolStep`] and answered by the
//! caller, until it ends in the JSON text of the reply. Every decision is
//! made here; the caller only performs the effects.
use vstd::prelude::*;

use crate::cmd::{code_or_zero, run_command_checked, spec_failure_message, CommandOutput};
use crate::config::TheyaProjectConfig;
use crate::error::{ErrorKind, TheyaError};
use crate::git::{spec_ls_files_args, Git};
use crate::ollama::{OllamaChatMessage, OllamaChatMessageRole, OllamaTool};
use crate::json::{
    json_null, json_string, json_string_array, spec_as_str, spec_get, spec_json_string,
    spec_json_string_array, spec_str_member, spec_string_array, spec_u64_member, JsonValue,
};
use crate::openai::{
    message_view, opt_view, OpenAiChatMessage, OpenAiChatMessageRole, OpenAiTool,
};
use crate::text::{
    concat, concat3, i32_to_string, signed_decimal, spec_split_nonempty, split_nonempty, trim,
    trim_str, views,
};
use crate::tools::{
    TheyaTools, select_line_range, spec_line_range, spec_range_error, spec_range_panics, string_list,
    ToolName,
};

verus! {

/// What to do with the outcome of a command.
#[derive(Debug)]
pub enum AfterRun {
    /// `file_list`: list the files that git tracks under `path`.
    FileList { path: Option<String> },
    /// `grep`: the matches.
    Grep,
    /// A command tool: PASS, or FAIL with the command's output.
    Status,
    /// A git tool that replies with git's output; `args` are git's arguments.
    GitOutput { args: Vec<String> },
    /// `git_log`: the non-empty lines of git's output.
    GitLines { args: Vec<String> },
    /// `git_commit_changes`: nothing but success.
    GitCommit { args: Vec<String> },
    /// `cargo`: PASS or FAIL with the trimmed output.
    Cargo,
}

/// What to do once a path is known to lie within the working directory.
#[derive(Debug)]
pub enum AfterCheck {
    /// Read the lines `start..=end` of the file at `path`.
    ReadFile { path: String, start: Option<usize>, end: Option<usize> },
    /// Search `path` for `pattern`.
    Grep { path: String, pattern: String },
    /// Write `content` to the file at `path`.
    WriteFile { path: String, content: String },
}

/// What to do with the content of a file: select its lines `start..=end`.
#[derive(Debug)]
pub struct AfterRead {
    pub start: Option<usize>,
    pub end: Option<usize>,
}

/// Where a tool call stands: an effect to perform, with what follows it, or
/// the reply.
#[derive(Debug)]
pub enum ToolStep {
    /// Run `program` with `args`; hand its outcome to [`resume_run`].
    Run { program: String, args: Vec<String>, next: AfterRun },
    /// Tell whether `path` lies within the working directory; hand the
    /// answer to [`resume_check`].
    Check { path: String, next: AfterCheck },
    /// Read the file at `path`; hand its content to [`resume_read`].
    Read { path: String, next: AfterRead },
    /// Write `content` to the file at `path`; hand the outcome to
    /// [`resume_write`].
    Write { path: String, content: String },
    /// The JSON text that answers the call.
    Reply(String),
}

// ---------------------------------------------------------------------------
// Replies
// ---------------------------------------------------------------------------

/// The text of an error of kind `kind` with message `msg`.
pub open spec fn error_text(kind: ErrorKind, msg: Seq<char>) -> Seq<char> {
    kind.spec_name() + ": "@ + msg
}

/// The reply of a tool that failed with the error text `text`.
pub open spec fn spec_fail_reply(text: Seq<char>) -> Seq<char> {
    spec_json_string("FAIL: "@ + text)
}

/// The reply of a tool whose result is a text, or an error text.
pub open spec fn spec_text_reply(res: Result<Seq<char>, Seq<char>>) -> Seq<char> {
    match res {
        Ok(s) => spec_json_string(s),
        Err(t) => spec_fail_reply(t),
    }
}

/// The reply of a tool whose result is a list of texts, or an error text.
pub open spec fn spec_lines_reply(res: Result<Seq<Seq<char>>, Seq<char>>) -> Seq<char> {
    match res {
        Ok(v) => spec_json_string_array(v),
        Err(t) => spec_fail_reply(t),
    }
}

/// The reply of a tool whose result is nothing, or an error text.
pub open spec fn spec_unit_reply(res: Result<(), Seq<char>>) -> Seq<char> {
    match res {
        Ok(_) => "null"@,
        Err(t) => spec_fail_reply(t),
    }
}

/// A result with its error taken by its text.
pub open spec fn text_result<T>(res: Result<T, TheyaError>) -> Result<T, Seq<char>> {
    match res {
        Ok(v) => Ok(v),
        Err(e) => Err(e.spec_text()),
    }
}

/// `s` is the reply `text`.
pub open spec fn replies(s: ToolStep, text: Seq<char>) -> bool {
    s matches ToolStep::Reply(t) && t@ == text
}

/// `s` runs `program` with `args`.
pub open spec fn runs(s: ToolStep, program: Seq<char>, args: Seq<Seq<char>>) -> bool {
    s matches ToolStep::Run { program: p, args: a, .. } && p@ == program && views(a@) == args
}

fn fail_reply(e: &TheyaError) -> (r: String)
    ensures
        r@ == spec_fail_reply(e.spec_text()),
{
    let t = e.to_string();
    let msg = concat("FAIL: ", t.as_str());
    json_string(msg.as_str())
}

fn text_reply(res: Result<String, TheyaError>) -> (r: String)
    ensures
        r@ == spec_text_reply(
            match res {
                Ok(s) => Ok(s@),
                Err(e) => Err(e.spec_text()),
            },
        ),
{
    match res {
        Ok(s) => json_string(s.as_str()),
        Err(e) => fail_reply(&e),
    }
}

fn lines_reply(res: Result<Vec<String>, TheyaError>) -> (r: String)
    ensures
        r@ == spec_lines_reply(
            match res {
                Ok(v) => Ok(views(v@)),
                Err(e) => Err(e.spec_text()),
            },
        ),
{
    match res {
        Ok(v) => json_string_array(&v),
        Err(e) => fail_reply(&e),
    }
}

fn unit_reply(res: Result<(), TheyaError>) -> (r: String)
    ensures
        r@ == spec_unit_reply(text_result(res)),
{
    proof {
        reveal_strlit("null");
    }
    match res {
        Ok(_) => json_null(),
        Err(e) => fail_reply(&e),
    }
}

// ---------------------------------------------------------------------------
// After a command
// ---------------------------------------------------------------------------

/// The outcome of a command that must succeed: its output, or the text of
/// the error (see [`crate::cmd::run_command_checked`]).
pub open spec fn spec_checked(
    cmd: Seq<char>,
    args: Seq<Seq<char>>,
    output: Result<CommandOutput, TheyaError>,
) -> Result<Seq<char>, Seq<char>> {
    match output {
        Err(e) => Err(e.spec_text()),
        Ok(out) => if out.success {
            Ok(out.stdout@)
        } else {
            Err(error_text(ErrorKind::Bug, spec_failure_message(cmd, args, out.code, out.stderr@)))
        },
    }
}

/// The message of a search that failed.
pub open spec fn spec_grep_failure(out: CommandOutput) -> Seq<char> {
    "grep failed with error "@ + signed_decimal(code_or_zero(out.code)) + ", stdout: '"@
        + out.stdout@ + "', stderr: '"@ + out.stderr@ + "'"@
}

/// What a search gives: the matches; `error: no match` when the search
/// exited with 1; an error otherwise.
pub open spec fn spec_grep(output: Result<CommandOutput, TheyaError>) -> Result<
    Seq<char>,
    Seq<char>,
> {
    match output {
        Err(e) => Err(e.spec_text()),
        Ok(out) => if out.success {
            Ok(out.stdout@)
        } else if out.code == Some(1i32) {
            Ok("error: no match"@)
        } else {
            Err(error_text(ErrorKind::AiInvalidReply, spec_grep_failure(out)))
        },
    }
}

/// What a command tool gives: `PASS`, or `FAIL:` followed by the output
/// and the error output on two lines.
pub open spec fn spec_status(output: Result<CommandOutput, TheyaError>) -> Result<
    Seq<char>,
    Seq<char>,
> {
    match output {
        Err(e) => Err(e.spec_text()),
        Ok(out) => if out.success {
            Ok("PASS"@)
        } else {
            Ok("FAIL:"@ + out.stdout@ + "\n"@ + out.stderr@)
        },
    }
}

/// What `cargo` gives: `PASS` or `FAIL`, a newline, and the output and
/// error output together, trimmed.
pub open spec fn spec_cargo(output: Result<CommandOutput, TheyaError>) -> Result<
    Seq<char>,
    Seq<char>,
> {
    match output {
        Err(e) => Err(e.spec_text()),
        Ok(out) => {
            let combined = trim(out.stdout@ + out.stderr@);
            if out.success {
                Ok("PASS\n"@ + combined)
            } else {
                Ok("FAIL\n"@ + combined)
            }
        },
    }
}

/// The lines of a result.
pub open spec fn lines_of(res: Result<Seq<char>, Seq<char>>) -> Result<Seq<Seq<char>>, Seq<char>> {
    match res {
        Ok(s) => Ok(spec_split_nonempty(s, '\n')),
        Err(t) => Err(t),
    }
}

/// The reply that follows the outcome `output` of a command.
pub open spec fn spec_after_run(next: AfterRun, output: Result<CommandOutput, TheyaError>) -> Seq<
    char,
> {
    match next {
        AfterRun::FileList { path } => spec_lines_reply(
            lines_of(
                spec_checked("git"@, spec_ls_files_args(opt_view(path)), output),
            ),
        ),
        AfterRun::Grep => spec_text_reply(spec_grep(output)),
        AfterRun::Status => spec_text_reply(spec_status(output)),
        AfterRun::GitOutput { args } => spec_text_reply(spec_checked("git"@, views(args@), output)),
        AfterRun::GitLines { args } => spec_lines_reply(
            lines_of(spec_checked("git"@, views(args@), output)),
        ),
        AfterRun::GitCommit { args } => spec_unit_reply(
            match spec_checked("git"@, views(args@), output) {
                Ok(_) => Ok(()),
                Err(t) => Err(t),
            },
        ),
        AfterRun::Cargo => spec_text_reply(spec_cargo(output)),
    }
}

fn grep_result(output: Result<CommandOutput, TheyaError>) -> (res: Result<String, TheyaError>)
    ensures
        match res {
            Ok(s) => spec_grep(output) == Ok::<Seq<char>, Seq<char>>(s@),
            Err(e) => spec_grep(output) == Err::<Seq<char>, Seq<char>>(e.spec_text()),
        },
{
    match output {
        Err(e) => Err(e),
        Ok(out) => {
            let no_match = match out.code {
                Some(c) => c == 1,
                None => false,
            };
            if out.success {
                Ok(out.stdout)
            } else if no_match {
                Ok(String::from_str("error: no match"))
            } else {
                let code = match out.code {
                    Some(c) => c,
                    None => 0,
                };
                let rc = i32_to_string(code);
                let mut msg = concat("grep failed with error ", rc.as_str());
                msg.append(", stdout: '");
                msg.append(out.stdout.as_str());
                msg.append("', stderr: '");
                msg.append(out.stderr.as_str());
                msg.append("'");
                Err(TheyaError::new(ErrorKind::AiInvalidReply, msg))
            }
        },
    }
}

fn status_result(output: Result<CommandOutput, TheyaError>) -> (res: Result<String, TheyaError>)
    ensures
        match res {
            Ok(s) => spec_status(output) == Ok::<Seq<char>, Seq<char>>(s@),
            Err(e) => spec_status(output) == Err::<Seq<char>, Seq<char>>(e.spec_text()),
        },
{
    match output {
        Err(e) => Err(e),
        Ok(out) => if out.success {
            Ok(String::from_str("PASS"))
        } else {
            let mut msg = concat3("FAIL:", out.stdout.as_str(), "\n");
            msg.append(out.stderr.as_str());
            Ok(msg)
        },
    }
}

fn cargo_result(output: Result<CommandOutput, TheyaError>) -> (res: Result<String, TheyaError>)
    ensures
        match res {
            Ok(s) => spec_cargo(output) == Ok::<Seq<char>, Seq<char>>(s@),
            Err(e) => spec_cargo(output) == Err::<Seq<char>, Seq<char>>(e.spec_text()),
        },
{
    match output {
        Err(e) => Err(e),
        Ok(out) => {
            let both = concat(out.stdout.as_str(), out.stderr.as_str());
            let combined = trim_str(both.as_str());
            if out.success {
                Ok(concat("PASS\n", combined.as_str()))
            } else {
                Ok(concat("FAIL\n", combined.as_str()))
            }
        },
    }
}

fn checked_result(args: &Vec<String>, output: Result<CommandOutput, TheyaError>) -> (res: Result<
    String,
    TheyaError,
>)
    ensures
        match res {
            Ok(s) => spec_checked("git"@, views(args@), output) == Ok::<Seq<char>, Seq<char>>(s@),
            Err(e) => spec_checked("git"@, views(args@), output) == Err::<Seq<char>, Seq<char>>(
                e.spec_text(),
            ),
        },
{
    run_command_checked("git", args, output)
}

/// The reply that follows the outcome `output` of the command that `next`
/// waits on (see [`spec_after_run`]).
pub fn resume_run(next: AfterRun, output: Result<CommandOutput, TheyaError>) -> (r: ToolStep)
    ensures
        replies(r, spec_after_run(next, output)),
{
    match next {
        AfterRun::FileList { path } => {
            let ghost args = spec_ls_files_args(opt_view(path));
            let listed = match &path {
                Some(p) => Git::file_list(Some(p.as_str()), output),
                None => Git::file_list(None, output),
            };
            assert(match listed {
                Ok(v) => Ok(views(v@)),
                Err(e) => Err(e.spec_text()),
            } == lines_of(spec_checked("git"@, args, output)));
            ToolStep::Reply(lines_reply(listed))
        },
        AfterRun::Grep => ToolStep::Reply(text_reply(grep_result(output))),
        AfterRun::Status => ToolStep::Reply(text_reply(status_result(output))),
        AfterRun::GitOutput { args } => ToolStep::Reply(text_reply(checked_result(&args, output))),
        AfterRun::GitLines { args } => {
            let lines = match checked_result(&args, output) {
                Ok(text) => Ok(split_nonempty(text.as_str(), '\n')),
                Err(e) => Err(e),
            };
            ToolStep::Reply(lines_reply(lines))
        },
        AfterRun::GitCommit { args } => {
            let done = match checked_result(&args, output) {
                Ok(_) => Ok(()),
                Err(e) => Err(e),
            };
            ToolStep::Reply(unit_reply(done))
        },
        AfterRun::Cargo => ToolStep::Reply(text_reply(cargo_result(output))),
    }
}

// ---------------------------------------------------------------------------
// After a path check, a read, a write
// ---------------------------------------------------------------------------

/// The message that refuses a path outside the working directory.
pub open spec fn spec_refusal(next: AfterCheck) -> Seq<char> {
    match next {
        AfterCheck::ReadFile { path, .. } => "Cannot access file "@ + path@
            + " outside of current working directory"@,
        AfterCheck::Grep { path, .. } => "Cannot grep path "@ + path@
            + " outside of current working directory"@,
        AfterCheck::WriteFile { path, .. } => "Cannot write file "@ + path@
            + " outside of current working directory"@,
    }
}

/// The step that follows the answer `within` to whether the path that
/// `next` names lies within the working directory: the effect that `next`
/// waits for when it does, a refusal when it does not, the error when the
/// answer could not be had.
pub open spec fn spec_after_check(next: AfterCheck, within: Result<bool, TheyaError>, r: ToolStep) -> bool {
    match within {
        Err(e) => replies(r, spec_fail_reply(e.spec_text())),
        Ok(false) => replies(
            r,
            spec_fail_reply(error_text(ErrorKind::AiInvalidReply, spec_refusal(next))),
        ),
        Ok(true) => match next {
            AfterCheck::ReadFile { path, start, end } => r matches ToolStep::Read {
                path: p,
                next: n,
            } && p@ == path@ && n.start == start && n.end == end,
            AfterCheck::Grep { path, pattern } => runs(r, "rg"@, seq!["-e"@, pattern@, path@])
                && (r->Run_next is Grep),
            AfterCheck::WriteFile { path, content } => r matches ToolStep::Write {
                path: p,
                content: c,
            } && p@ == path@ && c@ == content@,
        },
    }
}

fn outside(what: &str, path: &str) -> (r: String)
    ensures
        r@ == what@ + path@ + " outside of current working directory"@,
{
    concat3(what, path, " outside of current working directory")
}

/// The step that follows the answer `within` to the path check of `next`
/// (see [`spec_after_check`]).
pub fn resume_check(next: AfterCheck, within: Result<bool, TheyaError>) -> (r: ToolStep)
    ensures
        spec_after_check(next, within, r),
{
    match within {
        Err(e) => ToolStep::Reply(fail_reply(&e)),
        Ok(false) => {
            let msg = match &next {
                AfterCheck::ReadFile { path, .. } => outside("Cannot access file ", path.as_str()),
                AfterCheck::Grep { path, .. } => outside("Cannot grep path ", path.as_str()),
                AfterCheck::WriteFile { path, .. } => outside("Cannot write file ", path.as_str()),
            };
            ToolStep::Reply(fail_reply(&TheyaError::new(ErrorKind::AiInvalidReply, msg)))
        },
        Ok(true) => match next {
            AfterCheck::ReadFile { path, start, end } => ToolStep::Read {
                path,
                next: AfterRead { start, end },
            },
            AfterCheck::Grep { path, pattern } => {
                let ghost want = seq!["-e"@, pattern@, path@];
                let mut args = string_list(&["-e"]);
                assert(views(args@) =~= seq!["-e"@]);
                let ghost a1 = views(args@).push(pattern@);
                args.push(pattern);
                assert(views(args@) =~= a1);
                let ghost a2 = a1.push(path@);
                args.push(path);
                assert(views(args@) =~= a2);
                assert(a2 =~= want);
                ToolStep::Run { program: String::from_str("rg"), args, next: AfterRun::Grep }
            },
            AfterCheck::WriteFile { path, content } => ToolStep::Write { path, content },
        },
    }
}

/// The reply that follows the content of the file that `next` selects
/// from: the selected lines, or the error.
pub open spec fn spec_after_read(next: AfterRead, content: Result<String, TheyaError>) -> Seq<char> {
    match content {
        Err(e) => spec_fail_reply(e.spec_text()),
        Ok(c) => match spec_line_range(c@, next.start, next.end) {
            Some(t) => spec_json_string(t),
            None => spec_fail_reply(error_text(ErrorKind::AiInvalidReply, spec_range_error())),
        },
    }
}

/// Whether selecting the lines of `next` from `content` is refused by a
/// panic of the file reader: a bound was given and the file has no line.
pub open spec fn spec_read_panics(next: AfterRead, content: Result<String, TheyaError>) -> bool {
    content matches Ok(c) && spec_range_panics(c@, next.start, next.end)
}

/// Whether [`resume_read`] must not be called with `content`.
pub fn read_panics(next: &AfterRead, content: &Result<String, TheyaError>) -> (r: bool)
    ensures
        r == spec_read_panics(*next, *content),
{
    match content {
        Ok(c) => crate::tools::range_select_panics(c.as_str(), next.start, next.end),
        Err(_) => false,
    }
}

/// The reply that follows the content of the file read for `next` (see
/// [`spec_after_read`]).
pub fn resume_read(next: AfterRead, content: Result<String, TheyaError>) -> (r: ToolStep)
    requires
        !spec_read_panics(next, content),
    ensures
        replies(r, spec_after_read(next, content)),
{
    match content {
        Err(e) => ToolStep::Reply(fail_reply(&e)),
        Ok(c) => {
            let selected = select_line_range(c.as_str(), next.start, next.end);
            ToolStep::Reply(text_reply(selected))
        },
    }
}

/// The reply to a write: `PASS`, or `FAIL: ` and the text of the error
/// that the write failed with.
pub open spec fn spec_after_write(failure: Option<Seq<char>>) -> Seq<char> {
    match failure {
        None => spec_json_string("PASS"@),
        Some(t) => spec_json_string("FAIL: "@ + t),
    }
}

/// The reply that follows a write, `failure` being the text of the error
/// that it failed with.
pub fn resume_write(failure: Option<String>) -> (r: ToolStep)
    ensures
        replies(r, spec_after_write(opt_view(failure))),
{
    match failure {
        None => ToolStep::Reply(json_string("PASS")),
        Some(t) => {
            let msg = concat("FAIL: ", t.as_str());
            ToolStep::Reply(json_string(msg.as_str()))
        },
    }
}

// ---------------------------------------------------------------------------
// Starting a call
// ---------------------------------------------------------------------------

/// A line bound as the reader takes it.
pub open spec fn line_bound(n: Option<u64>) -> Option<usize> {
    match n {
        Some(i) => Some(i as usize),
        None => None,
    }
}

/// The message for a read without a path.
pub open spec fn spec_empty_path_message() -> Seq<char> {
    "Got empty file_path, please provide file_path as string\n                    for file you want to read"@
}

/// `r` starts a command tool called `name` whose configured command is
/// `cmd`: `bash -c <cmd>`, or a reply that passes silently when there is no
/// command.
pub open spec fn spec_command_start(name: Seq<char>, cmd: Option<Seq<char>>, r: ToolStep) -> bool {
    match cmd {
        None => replies(r, spec_json_string("tool for "@ + name + " undefined by user, silent pass"@)),
        Some(c) => runs(r, "bash"@, seq!["-c"@, c]) && (r->Run_next is Status),
    }
}

/// `r` runs git with `args` and replies with git's output.
pub open spec fn spec_git_output(r: ToolStep, args: Seq<Seq<char>>) -> bool {
    runs(r, "git"@, args) && (r->Run_next matches AfterRun::GitOutput { args: b } && views(b@)
        == args)
}

/// The strings of the array member `key` of `args`, none when it is absent
/// or no array.
pub open spec fn string_list_member(args: JsonValue, key: Seq<char>) -> Seq<Seq<char>> {
    match spec_get(args, key) {
        Some(m) => match spec_string_array(m) {
            Some(v) => v,
            None => seq![],
        },
        None => seq![],
    }
}

/// The arguments of `git log` for a call with `args`: the last ten commits,
/// abbreviated hash and subject, of the files of `file_paths`.
pub open spec fn spec_git_log_args(args: JsonValue) -> Seq<Seq<char>> {
    seq!["log"@, "--pretty=format:'%h %s'"@, "--max-count=10"@, "--"@] + string_list_member(
        args,
        "file_paths"@,
    )
}

/// The `cargo` subcommands that are refused.
pub open spec fn spec_cargo_blocked(sub: Seq<char>) -> bool {
    sub == "login"@ || sub == "logout"@ || sub == "publish"@ || sub == "install"@
}

/// The `cargo` subcommand of a call with `args`, empty when absent.
pub open spec fn spec_cargo_subcommand(args: JsonValue) -> Seq<char> {
    match spec_str_member(args, "subcommand"@) {
        Some(s) => s,
        None => seq![],
    }
}

/// `r` is the first step of a call of `tool` with the arguments `args`, in
/// the project `project`.
pub open spec fn spec_start(tool: ToolName, args: JsonValue, project: TheyaProjectConfig, r: ToolStep) -> bool {
    match tool {
        ToolName::FileList => {
            let path = spec_str_member(args, "file_path"@);
            &&& runs(r, "git"@, spec_ls_files_args(path))
            &&& (r->Run_next matches AfterRun::FileList { path: p } && opt_view(p) == path)
        },
        ToolName::ReadFile => match spec_str_member(args, "file_path"@) {
            None => replies(
                r,
                spec_fail_reply(
                    error_text(
                        ErrorKind::Bug,
                        "ToolReadFile(): Invalid argument: expecting object with `file_path`"@,
                    ),
                ),
            ),
            Some(path) => if path.len() == 0 {
                replies(
                    r,
                    spec_fail_reply(error_text(ErrorKind::AiInvalidReply, spec_empty_path_message())),
                )
            } else {
                r matches ToolStep::Check {
                    path: p,
                    next: AfterCheck::ReadFile { path: q, start, end },
                } && p@ == path && q@ == path && start == line_bound(
                    spec_u64_member(args, "line_start"@),
                ) && end == line_bound(spec_u64_member(args, "line_end"@))
            },
        },
        ToolName::Grep => match (spec_str_member(args, "path"@), spec_str_member(args, "pattern"@)) {
            (Some(path), Some(pattern)) => r matches ToolStep::Check {
                path: p,
                next: AfterCheck::Grep { path: q, pattern: t },
            } && p@ == path && q@ == path && t@ == pattern,
            _ => replies(
                r,
                spec_fail_reply(
                    error_text(
                        ErrorKind::Bug,
                        "ToolGrep(): Invalid argument: expecting object with `path` and `pattern`"@,
                    ),
                ),
            ),
        },
        ToolName::WriteFile => match (
            spec_str_member(args, "file_path"@),
            spec_str_member(args, "file_content"@),
        ) {
            (Some(path), Some(content)) => r matches ToolStep::Check {
                path: p,
                next: AfterCheck::WriteFile { path: q, content: c },
            } && p@ == path && q@ == path && c@ == content,
            _ => replies(
                r,
                spec_fail_reply(
                    error_text(
                        ErrorKind::Bug,
                        "ToolWriteFile(): argument should be dictionary with `file_path` and `file_content`"@,
                    ),
                ),
            ),
        },
        ToolName::Compile => spec_command_start("compile"@, opt_view(project.compile), r),
        ToolName::UnitTest => spec_command_start(
            "unit_test"@,
            match opt_view(project.unit_test) {
                Some(c) => Some(
                    match spec_str_member(args, "test_name"@) {
                        Some(t) => c + " "@ + t,
                        None => c,
                    },
                ),
                None => None,
            },
            r,
        ),
        ToolName::Format => spec_command_start("code_format"@, opt_view(project.format), r),
        ToolName::LintCheck => spec_command_start("lint_check"@, opt_view(project.lint), r),
        ToolName::GitLog => {
            let a = spec_git_log_args(args);
            &&& runs(r, "git"@, a)
            &&& (r->Run_next matches AfterRun::GitLines { args: b } && views(b@) == a)
        },
        ToolName::Git => match spec_string_array(args) {
            Some(v) => spec_git_output(r, v),
            None => replies(
                r,
                spec_fail_reply(
                    error_text(ErrorKind::AiInvalidReply, "git: need array of string as arguments"@),
                ),
            ),
        },
        ToolName::GitCheckout => match spec_string_array(args) {
            Some(v) => spec_git_output(r, seq!["checkout"@] + v),
            None => replies(
                r,
                spec_fail_reply(
                    error_text(ErrorKind::AiInvalidReply, "git: need array of string as arguments"@),
                ),
            ),
        },
        ToolName::GitDiff => spec_git_output(r, seq!["diff"@]),
        ToolName::GitShowCommit => spec_git_output(
            r,
            match spec_as_str(args) {
                Some(h) => seq!["show"@, h],
                None => seq!["show"@],
            },
        ),
        ToolName::GitCreateCommit => match spec_str_member(args, "commit_message"@) {
            Some(m) => {
                let a = seq!["commit"@, "-a"@, "-m"@, m];
                &&& runs(r, "git"@, a)
                &&& (r->Run_next matches AfterRun::GitCommit { args: b } && views(b@) == a)
            },
            None => replies(
                r,
                spec_fail_reply(
                    error_text(
                        ErrorKind::Bug,
                        "ToolGitCreateCommit(): need `commit_message` argument"@,
                    ),
                ),
            ),
        },
        ToolName::Cargo => {
            let sub = spec_cargo_subcommand(args);
            if spec_cargo_blocked(sub) {
                replies(
                    r,
                    spec_json_string("FAIL\ncargo subcommand '"@ + sub + "' is not allowed"@),
                )
            } else {
                runs(r, "cargo"@, seq![sub] + string_list_member(args, "args"@)) && (
                r->Run_next is Cargo)
            }
        },
    }
}

fn push_view(v: &mut Vec<String>, s: String)
    ensures
        views(final(v)@) == views(old(v)@).push(s@),
{
    let ghost want = views(v@).push(s@);
    v.push(s);
    assert(views(v@) =~= want);
}

fn append_views(v: &mut Vec<String>, extra: Vec<String>)
    ensures
        views(final(v)@) == views(old(v)@) + views(extra@),
{
    let ghost start = views(v@);
    let rest = extra;
    let ghost all = views(rest@);
    let mut i: usize = 0;
    let n = rest.len();
    while i < n
        invariant
            n == rest.len(),
            0 <= i <= n,
            all == views(rest@),
            views(v@) == start + all.take(i as int),
        decreases n - i,
    {
        let s = rest[i].clone();
        assert(all.take(i + 1) == all.take(i as int).push(all[i as int]));
        push_view(v, s);
        i += 1;
    }
    assert(all.take(n as int) == all);
}

fn copy_strings(v: &Vec<String>) -> (r: Vec<String>)
    ensures
        views(r@) == views(v@),
{
    let mut r: Vec<String> = Vec::new();
    let mut i: usize = 0;
    while i < v.len()
        invariant
            0 <= i <= v.len(),
            views(r@) == views(v@).take(i as int),
        decreases v.len() - i,
    {
        assert(views(v@).take(i + 1) == views(v@).take(i as int).push(v@[i as int]@));
        push_view(&mut r, v[i].clone());
        i += 1;
    }
    assert(views(v@).take(v.len() as int) == views(v@));
    r
}

fn fail_step(kind: ErrorKind, msg: &str) -> (r: ToolStep)
    ensures
        replies(r, spec_fail_reply(error_text(kind, msg@))),
{
    ToolStep::Reply(fail_reply(&TheyaError::new(kind, String::from_str(msg))))
}

fn command_start(name: &str, cmd: Option<String>) -> (r: ToolStep)
    ensures
        spec_command_start(name@, opt_view(cmd), r),
{
    match cmd {
        None => {
            let msg = concat3("tool for ", name, " undefined by user, silent pass");
            ToolStep::Reply(json_string(msg.as_str()))
        },
        Some(c) => {
            let mut args = string_list(&["-c"]);
            assert(views(args@) =~= seq!["-c"@]);
            push_view(&mut args, c);
            assert(views(args@) =~= seq!["-c"@, c@]);
            ToolStep::Run { program: String::from_str("bash"), args, next: AfterRun::Status }
        },
    }
}

fn git_output(args: Vec<String>) -> (r: ToolStep)
    ensures
        spec_git_output(r, views(args@)),
{
    let copy = copy_strings(&args);
    ToolStep::Run { program: String::from_str("git"), args: copy, next: AfterRun::GitOutput { args } }
}

fn opt_clone(s: &Option<String>) -> (r: Option<String>)
    ensures
        opt_view(r) == opt_view(*s),
{
    match s {
        Some(v) => Some(v.clone()),
        None => None,
    }
}

/// The first step of a call of `tool` with the arguments `args` in the
/// project `project` (see [`spec_start`]).
pub fn start_tool(tool: ToolName, args: &JsonValue, project: &TheyaProjectConfig) -> (r: ToolStep)
    ensures
        spec_start(tool, *args, *project, r),
{
    match tool {
        ToolName::FileList => start_file_list(args, project),
        ToolName::ReadFile => start_read_file(args, project),
        ToolName::Grep => start_grep(args, project),
        ToolName::WriteFile => start_write_file(args, project),
        ToolName::Compile => start_compile(args, project),
        ToolName::UnitTest => start_unit_test(args, project),
        ToolName::Format => start_format(args, project),
        ToolName::LintCheck => start_lint_check(args, project),
        ToolName::GitLog => start_git_log(args, project),
        ToolName::Git => start_git(args, project),
        ToolName::GitCheckout => start_git_checkout(args, project),
        ToolName::GitDiff => start_git_diff(args, project),
        ToolName::GitShowCommit => start_git_show_commit(args, project),
        ToolName::GitCreateCommit => start_git_create_commit(args, project),
        ToolName::Cargo => start_cargo(args, project),
    }
}

fn start_file_list(args: &JsonValue, project: &TheyaProjectConfig) -> (r: ToolStep)
    ensures
        spec_start(ToolName::FileList, *args, *project, r),
{
    let path = args.str_member("file_path");
    let ghost pv = opt_view(path);
    let git_args = match &path {
        Some(p) => Git::file_list_args(Some(p.as_str())),
        None => Git::file_list_args(None),
    };
    assert(views(git_args@) == spec_ls_files_args(pv));
    ToolStep::Run {
        program: String::from_str("git"),
        args: git_args,
        next: AfterRun::FileList { path },
    }
}

fn start_read_file(args: &JsonValue, project: &TheyaProjectConfig) -> (r: ToolStep)
    ensures
        spec_start(ToolName::ReadFile, *args, *project, r),
{
    match args.str_member("file_path") {
        None => fail_step(
            ErrorKind::Bug,
            "ToolReadFile(): Invalid argument: expecting object with `file_path`",
        ),
        Some(path) => if path.as_str().is_empty() {
            fail_step(
                ErrorKind::AiInvalidReply,
                "Got empty file_path, please provide file_path as string\n                    for file you want to read",
            )
        } else {
            let start = match args.u64_member("line_start") {
                Some(i) => Some(i as usize),
                None => None,
            };
            let end = match args.u64_member("line_end") {
                Some(i) => Some(i as usize),
                None => None,
            };
            ToolStep::Check {
                path: path.clone(),
                next: AfterCheck::ReadFile { path, start, end },
            }
        },
    }
}

fn start_grep(args: &JsonValue, project: &TheyaProjectConfig) -> (r: ToolStep)
    ensures
        spec_start(ToolName::Grep, *args, *project, r),
{
    match (args.str_member("path"), args.str_member("pattern")) {
        (Some(path), Some(pattern)) => ToolStep::Check {
            path: path.clone(),
            next: AfterCheck::Grep { path, pattern },
        },
        _ => fail_step(
            ErrorKind::Bug,
            "ToolGrep(): Invalid argument: expecting object with `path` and `pattern`",
        ),
    }
}

fn start_write_file(args: &JsonValue, project: &TheyaProjectConfig) -> (r: ToolStep)
    ensures
        spec_start(ToolName::WriteFile, *args, *project, r),
{
    match (args.str_member("file_path"), args.str_member("file_content")) {
        (Some(path), Some(content)) => ToolStep::Check {
            path: path.clone(),
            next: AfterCheck::WriteFile { path, content },
        },
        _ => fail_step(
            ErrorKind::Bug,
            "ToolWriteFile(): argument should be dictionary with `file_path` and `file_content`",
        ),
    }
}

fn start_compile(args: &JsonValue, project: &TheyaProjectConfig) -> (r: ToolStep)
    ensures
        spec_start(ToolName::Compile, *args, *project, r),
{
    command_start("compile", opt_clone(&project.compile))
}

fn start_unit_test(args: &JsonValue, project: &TheyaProjectConfig) -> (r: ToolStep)
    ensures
        spec_start(ToolName::UnitTest, *args, *project, r),
{
    let cmd = match &project.unit_test {
        Some(c) => match args.str_member("test_name") {
            Some(t) => Some(concat3(c.as_str(), " ", t.as_str())),
            None => Some(c.clone()),
        },
        None => None,
    };
    command_start("unit_test", cmd)
}

fn start_format(args: &JsonValue, project: &TheyaProjectConfig) -> (r: ToolStep)
    ensures
        spec_start(ToolName::Format, *args, *project, r),
{
    command_start("code_format", opt_clone(&project.format))
}

fn start_lint_check(args: &JsonValue, project: &TheyaProjectConfig) -> (r: ToolStep)
    ensures
        spec_start(ToolName::LintCheck, *args, *project, r),
{
    command_start("lint_check", opt_clone(&project.lint))
}

fn start_git_log(args: &JsonValue, project: &TheyaProjectConfig) -> (r: ToolStep)
    ensures
        spec_start(ToolName::GitLog, *args, *project, r),
{
    let mut a = string_list(&["log", "--pretty=format:'%h %s'", "--max-count=10", "--"]);
    assert(views(a@) =~= seq!["log"@, "--pretty=format:'%h %s'"@, "--max-count=10"@, "--"@]);
    match args.string_array_member("file_paths") {
        Some(files) => append_views(&mut a, files),
        None => {},
    }
    assert(views(a@) =~= spec_git_log_args(*args));
    let copy = copy_strings(&a);
    ToolStep::Run {
        program: String::from_str("git"),
        args: copy,
        next: AfterRun::GitLines { args: a },
    }
}

fn start_git(args: &JsonValue, project: &TheyaProjectConfig) -> (r: ToolStep)
    ensures
        spec_start(ToolName::Git, *args, *project, r),
{
    match args.string_array() {
        Some(v) => git_output(v),
        None => fail_step(ErrorKind::AiInvalidReply, "git: need array of string as arguments"),
    }
}

fn start_git_checkout(args: &JsonValue, project: &TheyaProjectConfig) -> (r: ToolStep)
    ensures
        spec_start(ToolName::GitCheckout, *args, *project, r),
{
    match args.string_array() {
        Some(v) => {
            let mut a = string_list(&["checkout"]);
            assert(views(a@) =~= seq!["checkout"@]);
            append_views(&mut a, v);
            git_output(a)
        },
        None => fail_step(ErrorKind::AiInvalidReply, "git: need array of string as arguments"),
    }
}

fn start_git_diff(args: &JsonValue, project: &TheyaProjectConfig) -> (r: ToolStep)
    ensures
        spec_start(ToolName::GitDiff, *args, *project, r),
{
    let a = string_list(&["diff"]);
    assert(views(a@) =~= seq!["diff"@]);
    git_output(a)
}

fn start_git_show_commit(args: &JsonValue, project: &TheyaProjectConfig) -> (r: ToolStep)
    ensures
        spec_start(ToolName::GitShowCommit, *args, *project, r),
{
    let mut a = string_list(&["show"]);
    assert(views(a@) =~= seq!["show"@]);
    match args.as_str() {
        Some(h) => {
            push_view(&mut a, h.clone());
            assert(views(a@) =~= seq!["show"@, h@]);
        },
        None => {},
    }
    git_output(a)
}

fn start_git_create_commit(args: &JsonValue, project: &TheyaProjectConfig) -> (r: ToolStep)
    ensures
        spec_start(ToolName::GitCreateCommit, *args, *project, r),
{
    match args.str_member("commit_message") {
        Some(m) => {
            let ghost mv = m@;
            let mut a = string_list(&["commit", "-a", "-m"]);
            assert(views(a@) =~= seq!["commit"@, "-a"@, "-m"@]);
            push_view(&mut a, m);
            assert(views(a@) =~= seq!["commit"@, "-a"@, "-m"@, mv]);
            let copy = copy_strings(&a);
            ToolStep::Run {
                program: String::from_str("git"),
                args: copy,
                next: AfterRun::GitCommit { args: a },
            }
        },
        None => fail_step(ErrorKind::Bug, "ToolGitCreateCommit(): need `commit_message` argument"),
    }
}

fn start_cargo(args: &JsonValue, project: &TheyaProjectConfig) -> (r: ToolStep)
    ensures
        spec_start(ToolName::Cargo, *args, *project, r),
{
    let sub = match args.str_member("subcommand") {
        Some(s) => s,
        None => String::new(),
    };
    if cargo_blocked(sub.as_str()) {
        let msg = concat3("FAIL\ncargo subcommand '", sub.as_str(), "' is not allowed");
        ToolStep::Reply(json_string(msg.as_str()))
    } else {
        let ghost sv = sub@;
        let mut a: Vec<String> = Vec::new();
        push_view(&mut a, sub);
        assert(views(a@) =~= seq![sv]);
        match args.string_array_member("args") {
            Some(extra) => append_views(&mut a, extra),
            None => {},
        }
        assert(views(a@) =~= seq![sv] + string_list_member(*args, "args"@));
        ToolStep::Run { program: String::from_str("cargo"), args: a, next: AfterRun::Cargo }
    }
}

fn cargo_blocked(sub: &str) -> (r: bool)
    ensures
        r == spec_cargo_blocked(sub@),
{
    let s = String::from_str(sub);
    s == String::from_str("login") || s == String::from_str("logout") || s == String::from_str(
        "publish",
    ) || s == String::from_str("install")
}

/// The reply to a call of a tool that does not exist.
pub open spec fn spec_unknown_tool_reply(name: Seq<char>) -> Seq<char> {
    spec_json_string("FAIL: Invalid tool_name "@ + name)
}

/// The first step of handling a call of the tool named `name` with the
/// arguments `args`: the first step of that tool (see [`spec_start`]); a
/// refusal when no tool has that name.
pub open spec fn spec_dispatch(
    name: Seq<char>,
    args: JsonValue,
    project: TheyaProjectConfig,
    r: ToolStep,
) -> bool {
    match ToolName::spec_from_name(name) {
        Some(t) => spec_start(t, args, project, r),
        None => replies(r, spec_unknown_tool_reply(name)),
    }
}

fn dispatch(name: &String, args: &JsonValue, project: &TheyaProjectConfig) -> (r: ToolStep)
    ensures
        spec_dispatch(name@, *args, *project, r),
{
    match ToolName::from_name(name.as_str()) {
        Some(t) => start_tool(t, args, project),
        None => {
            let msg = concat("FAIL: Invalid tool_name ", name.as_str());
            ToolStep::Reply(json_string(msg.as_str()))
        },
    }
}

/// The first step of handling the call `tool` of an Ollama model in the
/// project `project` (see [`spec_dispatch`]).
pub fn handle_tool(tool: &OllamaTool, project: &TheyaProjectConfig) -> (r: ToolStep)
    ensures
        spec_dispatch(tool.function.name@, tool.function.arguments, *project, r),
{
    dispatch(&tool.function.name, &tool.function.arguments, project)
}

/// The message that answers the call `tool` of an Ollama model with the
/// reply text `content`.
pub fn ollama_tool_reply(tool: &OllamaTool, content: String) -> (r: OllamaChatMessage)
    ensures
        r.role == OllamaChatMessageRole::Tool,
        r.tool_name matches Some(n) && n@ == tool.function.name@,
        r.content == content,
        r.thinking is None,
        r.tool_calls is None,
{
    OllamaChatMessage::tool_reply(tool.function.name.clone(), content)
}

impl TheyaTools {
    /// The first step of handling the tool call `tool` in the project
    /// `project` (see [`spec_dispatch`]).
    pub fn handle(tool: &OpenAiTool, project: &TheyaProjectConfig) -> (r: ToolStep)
        ensures
            spec_dispatch(tool.function.name@, tool.function.arguments, *project, r),
    {
        dispatch(&tool.function.name, &tool.function.arguments, project)
    }

    /// The message that answers the tool call `tool` with the reply text
    /// `content`.
    pub fn reply(tool: &OpenAiTool, content: String) -> (r: OpenAiChatMessage)
        ensures
            message_view(r) == plain_tool_reply(tool.id@, content@),
    {
        OpenAiChatMessage::tool_reply(tool.id.clone(), content)
    }
}

/// The view of the message that answers the call `id` with `content`.
pub open spec fn plain_tool_reply(id: Seq<char>, content: Seq<char>) -> (
    OpenAiChatMessageRole,
    Option<Seq<char>>,
    Option<Seq<char>>,
    Option<Seq<(Seq<char>, Seq<char>, Seq<char>, Seq<char>)>>,
    Option<Seq<char>>,
) {
    (OpenAiChatMessageRole::Tool, Some(content), Some(id), None, None)
}

// ---------------------------------------------------------------------------
// Laws
// ---------------------------------------------------------------------------

/// No tool reads, writes or searches a file before the path has been
/// checked: the first step of a call is never a read or a write, and only
/// the file tools start with a check.
pub proof fn lemma_files_checked_first(
    tool: ToolName,
    args: JsonValue,
    project: TheyaProjectConfig,
    r: ToolStep,
)
    requires
        spec_start(tool, args, project, r),
    ensures
        !(r is Read),
        !(r is Write),
        r is Check ==> (tool is ReadFile || tool is Grep || tool is WriteFile),
{
}

/// A path found outside the working directory is not touched: the call
/// ends in a refusal.
pub proof fn lemma_outside_path_refused(next: AfterCheck, r: ToolStep)
    requires
        spec_after_check(next, Ok(false), r),
    ensures
        r is Reply,
{
}

/// The file that is read or written, or the path that is searched, is the
/// path that was checked.
pub proof fn lemma_checked_path_is_used(
    tool: ToolName,
    args: JsonValue,
    project: TheyaProjectConfig,
    first: ToolStep,
    second: ToolStep,
)
    requires
        spec_start(tool, args, project, first),
        first is Check,
        spec_after_check(first->Check_next, Ok(true), second),
    ensures
        second matches ToolStep::Read { path, .. } ==> path@ == first->Check_path@,
        second matches ToolStep::Write { path, .. } ==> path@ == first->Check_path@,
        second is Run ==> second->Run_args@.len() == 3 && second->Run_args@[2]@
            == first->Check_path@,
{
    if second is Run {
        let a = second->Run_args@;
        assert(views(a).len() == a.len());
        assert(views(a).len() == 3);
        assert(views(a)[2] == a[2]@);
    }
}

/// `r` runs `bash -c` with a command that begins with `prefix`, the
/// command being `a[1]` of the arguments `a`.
pub open spec fn runs_shell_command(r: ToolStep, prefix: Seq<char>) -> bool {
    r matches ToolStep::Run { program, args: a, .. } && program@ == seq!['b', 'a', 's', 'h']
        && a@.len() == 2 && a@[0]@ == seq!['-', 'c'] && prefix.len() <= a@[1]@.len()
        && a@[1]@.subrange(0, prefix.len() as int) == prefix
}

/// The command tools run what the project configures: a call of compile,
/// unit_test, code_format or lint_check in a project that sets a command
/// for it starts by running `bash -c` with that command (for unit_test,
/// the command alone when no test is named, so that all tests run, and the
/// command, a space and the test's name otherwise); only a project without
/// such a command gets a reply, the silent pass, and no command runs.
pub proof fn lemma_command_tools_run_configured(
    tool: ToolName,
    args: JsonValue,
    project: TheyaProjectConfig,
    r: ToolStep,
)
    requires
        spec_start(tool, args, project, r),
    ensures
        tool is Compile ==> (project.compile matches Some(c) ==> runs_shell_command(r, c@)) && (
        project.compile is None ==> r is Reply),
        tool is Format ==> (project.format matches Some(c) ==> runs_shell_command(r, c@)) && (
        project.format is None ==> r is Reply),
        tool is LintCheck ==> (project.lint matches Some(c) ==> runs_shell_command(r, c@)) && (
        project.lint is None ==> r is Reply),
        tool is UnitTest ==> (project.unit_test matches Some(c) ==> runs_shell_command(r, c@)
            && match spec_str_member(args, seq!['t', 'e', 's', 't', '_', 'n', 'a', 'm', 'e']) {
            Some(t) => r->Run_args@[1]@ == c@ + seq![' '] + t,
            None => r->Run_args@[1]@ == c@,
        }) && (project.unit_test is None ==> r is Reply),
{
    reveal_strlit("bash");
    reveal_strlit("-c");
    reveal_strlit(" ");
    reveal_strlit("test_name");
    assert("bash"@ == seq!['b', 'a', 's', 'h']);
    assert("-c"@ == seq!['-', 'c']);
    assert(" "@ == seq![' ']);
    assert("test_name"@ == seq!['t', 'e', 's', 't', '_', 'n', 'a', 'm', 'e']);
    if r is Run {
        let a = r->Run_args@;
        assert(views(a).len() == a.len());
        if a.len() == 2 {
            assert(views(a)[0] == a[0]@);
            assert(views(a)[1] == a[1]@);
            assert(a[1]@.subrange(0, a[1]@.len() as int) == a[1]@);
        }
    }
    match tool {
        ToolName::UnitTest => {
            if project.unit_test is Some {
                let c = project.unit_test->0@;
                match spec_str_member(args, "test_name"@) {
                    Some(t) => {
                        assert((c + " "@ + t).subrange(0, c.len() as int) == c);
                    },
                    None => {},
                }
            }
        },
        _ => {},
    }
}

} // verus!
