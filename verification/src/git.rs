//! The git queries: which arguments each runs `git` with, and what it makes
//! of the command's outcome.
use vstd::prelude::*;

use crate::cmd::{run_command_checked, spec_failure_message, CommandOutput};
use crate::error::{ErrorKind, TheyaError};
use crate::text::{spec_split_nonempty, split_nonempty, trim, trim_str, views};

verus! {

/// The git queries.
#[derive(Debug)]
pub struct Git {}

/// What a git query gives for the outcome of its command: the standard
/// output when it succeeded, else the error of
/// [`crate::cmd::run_command_checked`].
pub open spec fn spec_git_outcome(
    args: Seq<Seq<char>>,
    output: Result<CommandOutput, TheyaError>,
    res: Result<Seq<char>, TheyaError>,
) -> bool {
    match output {
        Err(e) => res == Err::<Seq<char>, TheyaError>(e),
        Ok(out) => if out.success {
            res == Ok::<Seq<char>, TheyaError>(out.stdout@)
        } else {
            res matches Err(e) && e.kind == ErrorKind::Bug && e.msg@ == spec_failure_message(
                "git"@,
                args,
                out.code,
                out.stderr@,
            )
        },
    }
}

/// The error of a git command that failed.
pub open spec fn spec_git_failure(args: Seq<Seq<char>>, out: CommandOutput, e: TheyaError) -> bool {
    e.kind == ErrorKind::Bug && e.msg@ == spec_failure_message("git"@, args, out.code, out.stderr@)
}

/// The path that `git ls-files` lists: `path`, or `./` when it is absent
/// or empty.
pub open spec fn spec_ls_files_path(path: Option<Seq<char>>) -> Seq<char> {
    match path {
        Some(p) => if p.len() > 0 {
            p
        } else {
            "./"@
        },
        None => "./"@,
    }
}

/// The arguments of `git ls-files` for `path`.
pub open spec fn spec_ls_files_args(path: Option<Seq<char>>) -> Seq<Seq<char>> {
    seq!["ls-files"@, spec_ls_files_path(path)]
}

fn strings2(a: &str, b: &str) -> (r: Vec<String>)
    ensures
        views(r@) == seq![a@, b@],
{
    let mut r = Vec::new();
    r.push(String::from_str(a));
    r.push(String::from_str(b));
    assert(views(r@) == seq![a@, b@]);
    r
}

fn strings3(a: &str, b: &str, c: &str) -> (r: Vec<String>)
    ensures
        views(r@) == seq![a@, b@, c@],
{
    let mut r = Vec::new();
    r.push(String::from_str(a));
    r.push(String::from_str(b));
    r.push(String::from_str(c));
    assert(views(r@) == seq![a@, b@, c@]);
    r
}


impl Git {
    /// Runs the outcome of `git <args>` through
    /// [`crate::cmd::run_command_checked`].
    pub fn run(args: &Vec<String>, output: Result<CommandOutput, TheyaError>) -> (res: Result<
        String,
        TheyaError,
    >)
        ensures
            spec_git_outcome(
                views(args@),
                output,
                match res {
                    Ok(s) => Ok(s@),
                    Err(e) => Err(e),
                },
            ),
    {
        run_command_checked("git", args, output)
    }

    /// `git log -1 --pretty=%s`: the subject of the last commit.
    pub fn patch_title_args() -> (r: Vec<String>)
        ensures
            views(r@) == seq!["log"@, "-1"@, "--pretty=%s"@],
    {
        strings3("log", "-1", "--pretty=%s")
    }

    /// The subject of the last commit, from the outcome of the command of
    /// [`Git::patch_title_args`].
    pub fn get_cur_patch_titile(output: Result<CommandOutput, TheyaError>) -> (res: Result<
        String,
        TheyaError,
    >)
        ensures
            spec_git_outcome(
                seq!["log"@, "-1"@, "--pretty=%s"@],
                output,
                match res {
                    Ok(s) => Ok(s@),
                    Err(e) => Err(e),
                },
            ),
    {
        let args = Self::patch_title_args();
        Self::run(&args, output)
    }

    /// `git ls-files <path>`, the path being `./` when absent or empty.
    pub fn file_list_args(path: Option<&str>) -> (r: Vec<String>)
        ensures
            views(r@) == spec_ls_files_args(
                match path {
                    Some(p) => Some(p@),
                    None => None,
                },
            ),
    {
        match path {
            Some(p) => if p.is_empty() {
                strings2("ls-files", "./")
            } else {
                strings2("ls-files", p)
            },
            None => strings2("ls-files", "./"),
        }
    }

    /// The files that git tracks under `path`: the non-empty lines of the
    /// output of the command of [`Git::file_list_args`].
    pub fn file_list(path: Option<&str>, output: Result<CommandOutput, TheyaError>) -> (res:
        Result<Vec<String>, TheyaError>)
        ensures
            match output {
                Ok(out) => if out.success {
                    res matches Ok(v) && views(v@) == spec_split_nonempty(out.stdout@, '\n')
                } else {
                    res matches Err(e) && spec_git_failure(
                        spec_ls_files_args(
                            match path {
                                Some(p) => Some(p@),
                                None => None,
                            },
                        ),
                        out,
                        e,
                    )
                },
                Err(e) => res == Err::<Vec<String>, TheyaError>(e),
            },
    {
        let args = Self::file_list_args(path);
        match Self::run(&args, output) {
            Ok(text) => Ok(split_nonempty(text.as_str(), '\n')),
            Err(e) => Err(e),
        }
    }

    /// `git rev-parse --show-toplevel`.
    pub fn root_dir_args() -> (r: Vec<String>)
        ensures
            views(r@) == seq!["rev-parse"@, "--show-toplevel"@],
    {
        strings2("rev-parse", "--show-toplevel")
    }

    /// The top directory of the work tree: the trimmed output of the
    /// command of [`Git::root_dir_args`].
    pub fn get_root_dir_path(output: Result<CommandOutput, TheyaError>) -> (res: Result<
        String,
        TheyaError,
    >)
        ensures
            match output {
                Ok(out) => if out.success {
                    res matches Ok(s) && s@ == trim(out.stdout@)
                } else {
                    res matches Err(e) && spec_git_failure(seq!["rev-parse"@, "--show-toplevel"@], out, e)
                },
                Err(e) => res == Err::<String, TheyaError>(e),
            },
    {
        let args = Self::root_dir_args();
        match Self::run(&args, output) {
            Ok(text) => Ok(trim_str(text.as_str())),
            Err(e) => Err(e),
        }
    }

    /// `git remote get-url origin`.
    pub fn origin_url_args() -> (r: Vec<String>)
        ensures
            views(r@) == seq!["remote"@, "get-url"@, "origin"@],
    {
        strings3("remote", "get-url", "origin")
    }

    /// The URL of the remote `origin`: the trimmed output of the command of
    /// [`Git::origin_url_args`].
    pub fn get_origin_remote_url(output: Result<CommandOutput, TheyaError>) -> (res: Result<
        String,
        TheyaError,
    >)
        ensures
            match output {
                Ok(out) => if out.success {
                    res matches Ok(s) && s@ == trim(out.stdout@)
                } else {
                    res matches Err(e) && spec_git_failure(seq!["remote"@, "get-url"@, "origin"@], out, e)
                },
                Err(e) => res == Err::<String, TheyaError>(e),
            },
    {
        let args = Self::origin_url_args();
        match Self::run(&args, output) {
            Ok(text) => Ok(trim_str(text.as_str())),
            Err(e) => Err(e),
        }
    }
}

} // verus!
