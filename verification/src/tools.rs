//! The tools that the model may call: their names, descriptions and
//! parameter schemas, the lists of tools that the sessions offer, and the
//! selection of a range of lines that the file reader returns. How a call
//! runs is in [`crate::tool_call`].
use vstd::prelude::*;

use crate::error::{ErrorKind, TheyaError};
use crate::openai::{opt_view, JsonSchema, OpenAiFunctionPrototype, OpenAiToolPrototype};
use crate::text::{concat, join, lines, spec_join, spec_lines, views};

verus! {

// ---------------------------------------------------------------------------
// Reading a range of lines
// ---------------------------------------------------------------------------

/// `i` clamped to `1..=total`.
pub open spec fn clamp_line(i: nat, total: nat) -> nat {
    if i < 1 {
        1
    } else if i > total {
        total
    } else {
        i
    }
}

/// Whether selecting lines from `content` is a selection that the file
/// reader cannot make (its clamp panics there): a bound is given and the
/// content has no line to clamp it to.
pub open spec fn spec_range_panics(content: Seq<char>, start: Option<usize>, end: Option<usize>) -> bool {
    (start is Some || end is Some) && spec_lines(content).len() == 0
}

/// First line index (from 0) and end line index of a selection.
pub open spec fn spec_range_bounds(content: Seq<char>, start: Option<usize>, end: Option<usize>) -> (
    int,
    int,
) {
    let total = spec_lines(content).len();
    let first = match start {
        Some(i) => clamp_line(i as nat, total),
        None => 1,
    } - 1;
    let last = match end {
        Some(i) => clamp_line(i as nat, total) as int,
        None => total as int,
    };
    (first, last)
}

/// The message of a selection whose end comes before its start.
pub open spec fn spec_range_error() -> Seq<char> {
    "ToolReadFile(): Invalid argument line_start and line_end: line_end should equal or bigger than line_start"@
}

/// Lines `start..=end` (counted from 1, each bound clamped to the lines
/// there are; the first line and the last when absent) of `content`,
/// joined with newlines and ending in one; `None` when the end comes before
/// the start.
pub open spec fn spec_line_range(content: Seq<char>, start: Option<usize>, end: Option<usize>) -> Option<
    Seq<char>,
> {
    let (first, last) = spec_range_bounds(content, start, end);
    if last >= first {
        Some(spec_join(spec_lines(content).subrange(first, last), "\n"@) + "\n"@)
    } else {
        None
    }
}

/// Whether the selection is one that the file reader cannot make (see
/// [`spec_range_panics`]); [`select_line_range`] is not called there.
pub fn range_select_panics(content: &str, start: Option<usize>, end: Option<usize>) -> (r: bool)
    ensures
        r == spec_range_panics(content@, start, end),
{
    let ls = lines(content);
    (start.is_some() || end.is_some()) && ls.len() == 0
}

fn clamp_exec(i: usize, total: usize) -> (r: usize)
    requires
        total >= 1,
    ensures
        r == clamp_line(i as nat, total as nat),
{
    if i < 1 {
        1
    } else if i > total {
        total
    } else {
        i
    }
}

/// Which lines a read selects, for a file that has lines: from line
/// `start` (the first line when absent) to line `end` (the last line when
/// absent), each bound first clamped to `1..=` the number of lines, and
/// each bound used on its own, whether the other is given or not. The
/// selection holds `end - start + 1` lines, ending with line `end`; it is
/// empty (a lone newline) when `end` is the line before `start`, and refused
/// when `end` comes earlier still.
pub proof fn lemma_line_range_selects(content: Seq<char>, start: Option<usize>, end: Option<usize>)
    requires
        spec_lines(content).len() > 0,
    ensures
        ({
            let ls = spec_lines(content);
            let n = ls.len() as int;
            let f: int = match start {
                None => 1,
                Some(s) => if s < 1 {
                    1
                } else if s > n {
                    n
                } else {
                    s as int
                },
            };
            let l: int = match end {
                None => n,
                Some(e) => if e < 1 {
                    1
                } else if e > n {
                    n
                } else {
                    e as int
                },
            };
            &&& f - 1 <= l ==> spec_line_range(content, start, end) == Some(
                spec_join(ls.subrange(f - 1, l), seq!['\n']) + seq!['\n'],
            )
            &&& f - 1 > l ==> spec_line_range(content, start, end) is None
        }),
{
    reveal_strlit("\n");
    assert("\n"@ == seq!['\n']);
}

/// A read without a first line reads from line 1, and one without a last
/// line reads to the last line: leaving a bound out is giving it.
pub proof fn lemma_line_range_missing_bounds(content: Seq<char>, start: Option<usize>, end: Option<usize>)
    requires
        spec_lines(content).len() > 0,
        spec_lines(content).len() <= usize::MAX,
    ensures
        spec_line_range(content, None, end) == spec_line_range(content, Some(1), end),
        spec_line_range(content, start, None) == spec_line_range(
            content,
            start,
            Some(spec_lines(content).len() as usize),
        ),
{
}

/// The lines `start..=end` of `content` (see [`spec_line_range`]); an
/// error of kind `AiInvalidReply` when the end comes before the start.
pub fn select_line_range(content: &str, start: Option<usize>, end: Option<usize>) -> (res: Result<
    String,
    TheyaError,
>)
    requires
        !spec_range_panics(content@, start, end),
    ensures
        match spec_line_range(content@, start, end) {
            Some(t) => res matches Ok(s) && s@ == t,
            None => res matches Err(e) && e.kind == ErrorKind::AiInvalidReply && e.msg@
                == spec_range_error(),
        },
{
    let ls = lines(content);
    let total = ls.len();
    let first: usize = match start {
        Some(i) => clamp_exec(i, total) - 1,
        None => 0,
    };
    let last: usize = match end {
        Some(i) => clamp_exec(i, total),
        None => total,
    };
    if last >= first {
        let mut sel: Vec<String> = Vec::new();
        let mut i = first;
        while i < last
            invariant
                first <= i <= last <= total,
                total == ls@.len(),
                views(sel@) == views(ls@).subrange(first as int, i as int),
            decreases last - i,
        {
            let ghost before = views(sel@);
            sel.push(ls[i].clone());
            assert(views(sel@) == before.push(ls@[i as int]@));
            assert(views(ls@).subrange(first as int, i + 1) == views(ls@).subrange(
                first as int,
                i as int,
            ).push(views(ls@)[i as int]));
            i += 1;
        }
        let body = join(&sel, "\n");
        Ok(concat(body.as_str(), "\n"))
    } else {
        Err(
            TheyaError::new(
                ErrorKind::AiInvalidReply,
                String::from_str(
                    "ToolReadFile(): Invalid argument line_start and line_end: line_end should equal or bigger than line_start",
                ),
            ),
        )
    }
}

// ---------------------------------------------------------------------------
// Tools
// ---------------------------------------------------------------------------

/// The tools.
#[derive(Clone, Copy, Debug, PartialEq, Eq, Structural)]
pub enum ToolName {
    FileList,
    ReadFile,
    Grep,
    WriteFile,
    Compile,
    UnitTest,
    Format,
    LintCheck,
    GitLog,
    Git,
    GitCheckout,
    GitDiff,
    GitShowCommit,
    GitCreateCommit,
    Cargo,
}

impl ToolName {
    /// The name that the model calls the tool by.
    pub open spec fn spec_name(self) -> Seq<char> {
        match self {
            ToolName::FileList => "file_list"@,
            ToolName::ReadFile => "read_file"@,
            ToolName::Grep => "grep"@,
            ToolName::WriteFile => "write_files"@,
            ToolName::Compile => "compile"@,
            ToolName::UnitTest => "unit_test"@,
            ToolName::Format => "code_format"@,
            ToolName::LintCheck => "lint_check"@,
            ToolName::GitLog => "git_log"@,
            ToolName::Git => "git"@,
            ToolName::GitCheckout => "git_checkout"@,
            ToolName::GitDiff => "git_diff"@,
            ToolName::GitShowCommit => "git_show_commit"@,
            ToolName::GitCreateCommit => "git_commit_changes"@,
            ToolName::Cargo => "cargo"@,
        }
    }

    /// The name that the model calls the tool by.
    pub fn name(&self) -> (r: String)
        ensures
            r@ == self.spec_name(),
    {
        match self {
            ToolName::FileList => String::from_str("file_list"),
            ToolName::ReadFile => String::from_str("read_file"),
            ToolName::Grep => String::from_str("grep"),
            ToolName::WriteFile => String::from_str("write_files"),
            ToolName::Compile => String::from_str("compile"),
            ToolName::UnitTest => String::from_str("unit_test"),
            ToolName::Format => String::from_str("code_format"),
            ToolName::LintCheck => String::from_str("lint_check"),
            ToolName::GitLog => String::from_str("git_log"),
            ToolName::Git => String::from_str("git"),
            ToolName::GitCheckout => String::from_str("git_checkout"),
            ToolName::GitDiff => String::from_str("git_diff"),
            ToolName::GitShowCommit => String::from_str("git_show_commit"),
            ToolName::GitCreateCommit => String::from_str("git_commit_changes"),
            ToolName::Cargo => String::from_str("cargo"),
        }
    }

    /// What the tool does, as the model is told.
    pub open spec fn spec_description(self) -> Seq<char> {
        match self {
            ToolName::FileList => "Return a list of file names of specified folder in git repo"@,
            ToolName::ReadFile => "Read content of the specified file, optionally read specified line range"@,
            ToolName::Grep => "grep content of the specified file or folder using ripgrep tool"@,
            ToolName::WriteFile => "Write content to specified file, return PASS or FAIL along with error"@,
            ToolName::Compile => "Compile the project return PASS or FAIL with error message"@,
            ToolName::UnitTest => "Run unit test after compile passed, return PASS or FAIL with error message"@,
            ToolName::Format => "Format the code after compile pass and unit test pass, return PASS if succeeded or FAIL along with error message"@,
            ToolName::LintCheck => "Run lint check after compile passed, return PASS if no error, otherwise return FAIL along with error message"@,
            ToolName::GitLog => "Get recent 10 commits of specified files with commit hash and subject of commit"@,
            ToolName::Git => "Run arbitrary git command with specified arguments"@,
            ToolName::GitCheckout => "Restore working files using git checkout"@,
            ToolName::GitDiff => "Get uncommitted changes since last git commit, no parameter required"@,
            ToolName::GitShowCommit => "Get content of specified commit hash or most recent commit when no argument provided"@,
            ToolName::GitCreateCommit => "Commit all the changes to git repository"@,
            ToolName::Cargo => "Run any cargo command. Provide the subcommand (e.g. \"build\", \"test\", \"check\", \"clippy\") and optional extra arguments. Returns the combined stdout and stderr output along with pass/fail status."@,
        }
    }

    /// What the tool does, as the model is told.
    pub fn description(&self) -> (r: String)
        ensures
            r@ == self.spec_description(),
    {
        match self {
            ToolName::FileList => String::from_str("Return a list of file names of specified folder in git repo"),
            ToolName::ReadFile => String::from_str("Read content of the specified file, optionally read specified line range"),
            ToolName::Grep => String::from_str("grep content of the specified file or folder using ripgrep tool"),
            ToolName::WriteFile => String::from_str("Write content to specified file, return PASS or FAIL along with error"),
            ToolName::Compile => String::from_str("Compile the project return PASS or FAIL with error message"),
            ToolName::UnitTest => String::from_str("Run unit test after compile passed, return PASS or FAIL with error message"),
            ToolName::Format => String::from_str("Format the code after compile pass and unit test pass, return PASS if succeeded or FAIL along with error message"),
            ToolName::LintCheck => String::from_str("Run lint check after compile passed, return PASS if no error, otherwise return FAIL along with error message"),
            ToolName::GitLog => String::from_str("Get recent 10 commits of specified files with commit hash and subject of commit"),
            ToolName::Git => String::from_str("Run arbitrary git command with specified arguments"),
            ToolName::GitCheckout => String::from_str("Restore working files using git checkout"),
            ToolName::GitDiff => String::from_str("Get uncommitted changes since last git commit, no parameter required"),
            ToolName::GitShowCommit => String::from_str("Get content of specified commit hash or most recent commit when no argument provided"),
            ToolName::GitCreateCommit => String::from_str("Commit all the changes to git repository"),
            ToolName::Cargo => String::from_str("Run any cargo command. Provide the subcommand (e.g. \"build\", \"test\", \"check\", \"clippy\") and optional extra arguments. Returns the combined stdout and stderr output along with pass/fail status."),
        }
    }

    /// The tool that the model called by `name`, among those that a call
    /// is dispatched to (all but `git` and `cargo`).
    pub open spec fn spec_from_name(name: Seq<char>) -> Option<ToolName> {
        if name == "file_list"@ {
            Some(ToolName::FileList)
        } else if name == "read_file"@ {
            Some(ToolName::ReadFile)
        } else if name == "write_files"@ {
            Some(ToolName::WriteFile)
        } else if name == "compile"@ {
            Some(ToolName::Compile)
        } else if name == "unit_test"@ {
            Some(ToolName::UnitTest)
        } else if name == "code_format"@ {
            Some(ToolName::Format)
        } else if name == "lint_check"@ {
            Some(ToolName::LintCheck)
        } else if name == "git_log"@ {
            Some(ToolName::GitLog)
        } else if name == "git_show_commit"@ {
            Some(ToolName::GitShowCommit)
        } else if name == "git_commit_changes"@ {
            Some(ToolName::GitCreateCommit)
        } else if name == "git_diff"@ {
            Some(ToolName::GitDiff)
        } else if name == "grep"@ {
            Some(ToolName::Grep)
        } else if name == "git_checkout"@ {
            Some(ToolName::GitCheckout)
        } else {
            None
        }
    }

    /// The tool that the model called by `name`.
    pub fn from_name(name: &str) -> (r: Option<ToolName>)
        ensures
            r == Self::spec_from_name(name@),
    {
        let n = String::from_str(name);
        if n == String::from_str("file_list") {
            Some(ToolName::FileList)
        } else if n == String::from_str("read_file") {
            Some(ToolName::ReadFile)
        } else if n == String::from_str("write_files") {
            Some(ToolName::WriteFile)
        } else if n == String::from_str("compile") {
            Some(ToolName::Compile)
        } else if n == String::from_str("unit_test") {
            Some(ToolName::UnitTest)
        } else if n == String::from_str("code_format") {
            Some(ToolName::Format)
        } else if n == String::from_str("lint_check") {
            Some(ToolName::LintCheck)
        } else if n == String::from_str("git_log") {
            Some(ToolName::GitLog)
        } else if n == String::from_str("git_show_commit") {
            Some(ToolName::GitShowCommit)
        } else if n == String::from_str("git_commit_changes") {
            Some(ToolName::GitCreateCommit)
        } else if n == String::from_str("git_diff") {
            Some(ToolName::GitDiff)
        } else if n == String::from_str("grep") {
            Some(ToolName::Grep)
        } else if n == String::from_str("git_checkout") {
            Some(ToolName::GitCheckout)
        } else {
            None
        }
    }

    /// The type of the tool's parameter schema.
    pub open spec fn spec_schema_kind(self) -> Option<Seq<char>> {
        match self {
            ToolName::Compile | ToolName::Format | ToolName::LintCheck | ToolName::GitDiff => None,
            ToolName::Git | ToolName::GitCheckout => Some("array"@),
            ToolName::GitShowCommit => Some("string"@),
            _ => Some("object"@),
        }
    }

    /// The description of the tool's parameter schema itself.
    pub open spec fn spec_schema_description(self) -> Option<Seq<char>> {
        match self {
            ToolName::Git | ToolName::GitCheckout => Some("arguments"@),
            ToolName::GitShowCommit => Some("commit hash to query, if omit, show recent commit"@),
            _ => None,
        }
    }

    /// The type and description of the items of the tool's array
    /// parameters.
    pub open spec fn spec_schema_items(self) -> Option<(Option<Seq<char>>, Option<Seq<char>>)> {
        match self {
            ToolName::Git | ToolName::GitCheckout => Some((Some("string"@), None)),
            _ => None,
        }
    }

    /// The properties of the tool's object parameters: name, type,
    /// description, and the type and description of the items of an array.
    pub open spec fn spec_properties(self) -> Option<Seq<PropertyView>> {
        match self {
            ToolName::FileList => Some(seq![("file_path"@, Some("string"@), Some("file path"@), None)]),
            ToolName::ReadFile => Some(
                seq![
                    ("file_path"@, Some("string"@), Some("file path"@), None),
                    ("line_start"@, Some("integer"@), Some("optional argument, only read content after specified line, including the specified line, first line is line 1. Undefined means start from first line."@), None),
                    ("line_end"@, Some("integer"@), Some("optional argument, only read content till specified line, including the specified line, first line is line 1. Undefined means till the end of file."@), None),
                ],
            ),
            ToolName::Grep => Some(seq![("path"@, Some("string"@), Some("path"@), None), ("pattern"@, Some("string"@), Some("Pattern to grep"@), None)]),
            ToolName::WriteFile => Some(seq![("file_path"@, Some("string"@), Some("file path"@), None), ("file_content"@, Some("string"@), Some("file content"@), None)]),
            ToolName::UnitTest => Some(seq![("test_name"@, Some("string"@), Some("Run specified test. If undefined, run all tests"@), None)]),
            ToolName::GitLog => Some(seq![("file_paths"@, Some("array"@), None, Some((Some("string"@), Some("file path"@))))]),
            ToolName::GitCreateCommit => Some(seq![("commit_message"@, Some("string"@), Some("commit message"@), None)]),
            ToolName::Cargo => Some(seq![("subcommand"@, Some("string"@), Some("The cargo subcommand to run, e.g. build, test, check, clippy, fmt, doc, run, bench"@), None), ("args"@, Some("array"@), None, Some((Some("string"@), Some("Additional argument or flag, e.g. \"--release\", \"--all-features\", \"my_test_name\""@))))]),
            _ => None,
        }
    }

    /// The tool's required parameters.
    pub open spec fn spec_required(self) -> Option<Seq<Seq<char>>> {
        match self {
            ToolName::FileList | ToolName::UnitTest | ToolName::GitCreateCommit => Some(seq![]),
            ToolName::ReadFile => Some(seq!["file_path"@]),
            ToolName::Grep => Some(seq!["path"@, "pattern"@]),
            ToolName::WriteFile => Some(seq!["file_path"@, "file_content"@]),
            ToolName::GitLog => Some(seq!["file_path"@]),
            ToolName::Cargo => Some(seq!["subcommand"@]),
            _ => None,
        }
    }
}

/// A property of an object schema, as plain values: its name, type and
/// description, and the type and description of its items when it is an
/// array.
pub type PropertyView = (
    Seq<char>,
    Option<Seq<char>>,
    Option<Seq<char>>,
    Option<(Option<Seq<char>>, Option<Seq<char>>)>,
);

/// Whether `s` has no nested schema.
pub open spec fn is_leaf(s: JsonSchema) -> bool {
    s.items is None && s.properties is None && s.required is None
}

/// The type and description of a schema.
pub open spec fn leaf_view(s: JsonSchema) -> (Option<Seq<char>>, Option<Seq<char>>) {
    (opt_view(s.kind), opt_view(s.description))
}

/// Whether `s` nests nothing but a leaf schema of items.
pub open spec fn is_shallow(s: JsonSchema) -> bool {
    &&& s.properties is None
    &&& s.required is None
    &&& match s.items {
        Some(b) => is_leaf(*b),
        None => true,
    }
}

/// A property of an object schema, as plain values.
pub open spec fn property_view(p: (String, JsonSchema)) -> PropertyView {
    (
        p.0@,
        opt_view(p.1.kind),
        opt_view(p.1.description),
        match p.1.items {
            Some(b) => Some(leaf_view(*b)),
            None => None,
        },
    )
}

/// The properties of an object schema, as plain values.
pub open spec fn property_views(props: Seq<(String, JsonSchema)>) -> Seq<PropertyView> {
    Seq::new(props.len(), |i: int| property_view(props[i]))
}

/// Whether `s` is the parameter schema of `t`: its type, description and
/// items, and the properties (each with nothing nested but its items) and
/// required properties of an object, are those of `t`.
pub open spec fn schema_matches(s: JsonSchema, t: ToolName) -> bool {
    &&& opt_view(s.kind) == t.spec_schema_kind()
    &&& opt_view(s.description) == t.spec_schema_description()
    &&& match s.items {
        Some(b) => is_leaf(*b) && Some(leaf_view(*b)) == t.spec_schema_items(),
        None => t.spec_schema_items() is None,
    }
    &&& match s.properties {
        Some(p) => (forall|i: int| 0 <= i < p@.len() ==> is_shallow(#[trigger] p@[i].1))
            && t.spec_properties() == Some(property_views(p@)),
        None => t.spec_properties() is None,
    }
    &&& match s.required {
        Some(q) => t.spec_required() == Some(views(q@)),
        None => t.spec_required() is None,
    }
}

/// Whether `p` is the prototype of `t`: a function with the tool's name,
/// description and parameters.
pub open spec fn is_prototype_of(p: OpenAiToolPrototype, t: ToolName) -> bool {
    &&& p.kind@ == "function"@
    &&& p.function.name@ == t.spec_name()
    &&& p.function.description matches Some(d) && d@ == t.spec_description()
    &&& schema_matches(p.function.parameters, t)
}

/// Whether `v` holds the prototypes of `tools`, in order.
pub open spec fn prototypes_of(v: Seq<OpenAiToolPrototype>, tools: Seq<ToolName>) -> bool {
    &&& v.len() == tools.len()
    &&& forall|i: int| 0 <= i < v.len() ==> is_prototype_of(#[trigger] v[i], tools[i])
}

fn opt_str(s: &str) -> (r: Option<String>)
    ensures
        r matches Some(v) && v@ == s@,
{
    Some(String::from_str(s))
}

fn prop(name: &str, kind: &str, description: &str) -> (r: (String, JsonSchema))
    ensures
        r.0@ == name@,
        r.1.kind matches Some(k) && k@ == kind@,
        r.1.description matches Some(d) && d@ == description@,
        r.1.items is None,
        r.1.properties is None,
        r.1.required is None,
{
    (
        String::from_str(name),
        JsonSchema {
            kind: opt_str(kind),
            items: None,
            properties: None,
            required: None,
            description: opt_str(description),
        },
    )
}

fn array_prop(name: &str, item_kind: &str, item_description: &str) -> (r: (String, JsonSchema))
    ensures
        r.0@ == name@,
        r.1.kind matches Some(k) && k@ == "array"@,
        r.1.description is None,
        r.1.properties is None,
        r.1.required is None,
        r.1.items matches Some(b) && is_leaf(*b) && leaf_view(*b) == (
            Some(item_kind@),
            Some(item_description@),
        ),
{
    let items = JsonSchema {
        kind: opt_str(item_kind),
        items: None,
        properties: None,
        required: None,
        description: opt_str(item_description),
    };
    (
        String::from_str(name),
        JsonSchema {
            kind: opt_str("array"),
            items: Some(Box::new(items)),
            properties: None,
            required: None,
            description: None,
        },
    )
}

pub(crate) fn string_list(items: &[&str]) -> (r: Vec<String>)
    ensures
        views(r@) == items@.map_values(|s: &str| s@),
{
    let mut r: Vec<String> = Vec::new();
    let mut i: usize = 0;
    while i < items.len()
        invariant
            0 <= i <= items.len(),
            views(r@) == items@.take(i as int).map_values(|s: &str| s@),
        decreases items.len() - i,
    {
        let ghost before = views(r@);
        r.push(String::from_str(items[i]));
        assert(views(r@) == before.push(items@[i as int]@));
        assert(items@.take(i + 1).map_values(|s: &str| s@) == items@.take(i as int).map_values(
            |s: &str| s@,
        ).push(items@[i as int]@));
        i += 1;
    }
    assert(items@.take(items.len() as int) == items@);
    r
}

fn object_schema(props: Vec<(String, JsonSchema)>, required: Vec<String>) -> (r: JsonSchema)
    ensures
        r.kind matches Some(k) && k@ == "object"@,
        r.properties == Some(props),
        r.required == Some(required),
        r.items is None,
        r.description is None,
{
    JsonSchema {
        kind: opt_str("object"),
        items: None,
        properties: Some(props),
        required: Some(required),
        description: None,
    }
}

fn array_of_strings_schema(description: Option<String>) -> (r: JsonSchema)
    ensures
        r.kind matches Some(k) && k@ == "array"@,
        r.description == description,
        r.properties is None,
        r.required is None,
        r.items matches Some(b) && is_leaf(*b) && leaf_view(*b) == (
            Some("string"@),
            None::<Seq<char>>,
        ),
{
    JsonSchema {
        kind: opt_str("array"),
        items: Some(
            Box::new(
                JsonSchema {
                    kind: opt_str("string"),
                    items: None,
                    properties: None,
                    required: None,
                    description: None,
                },
            ),
        ),
        properties: None,
        required: None,
        description,
    }
}

impl ToolName {
    /// The schema of the tool's parameters (see [`schema_matches`]).
    pub fn parameters(&self) -> (r: JsonSchema)
        ensures
            schema_matches(r, *self),
    {
        match self {
            ToolName::FileList => {
                let mut props = Vec::new();
                props.push(prop("file_path", "string", "file path"));
                let r = object_schema(props, Vec::new());
                assert(views(r.required->0@) =~= Seq::<Seq<char>>::empty());
                assert(property_views(r.properties->0@) =~= ToolName::FileList.spec_properties()->0);
                r
            },
            ToolName::ReadFile => {
                let mut props = Vec::new();
                props.push(prop("file_path", "string", "file path"));
                props.push(prop("line_start", "integer", "optional argument, only read content after specified line, including the specified line, first line is line 1. Undefined means start from first line."));
                props.push(prop("line_end", "integer", "optional argument, only read content till specified line, including the specified line, first line is line 1. Undefined means till the end of file."));
                let r = object_schema(props, string_list(&["file_path"]));
                assert(views(r.required->0@) =~= seq!["file_path"@]);
                assert(property_views(r.properties->0@) =~= ToolName::ReadFile.spec_properties()->0);
                r
            },
            ToolName::Grep => {
                let mut props = Vec::new();
                props.push(prop("path", "string", "path"));
                props.push(prop("pattern", "string", "Pattern to grep"));
                let r = object_schema(props, string_list(&["path", "pattern"]));
                assert(views(r.required->0@) =~= seq!["path"@, "pattern"@]);
                assert(property_views(r.properties->0@) =~= ToolName::Grep.spec_properties()->0);
                r
            },
            ToolName::WriteFile => {
                let mut props = Vec::new();
                props.push(prop("file_path", "string", "file path"));
                props.push(prop("file_content", "string", "file content"));
                let r = object_schema(props, string_list(&["file_path", "file_content"]));
                assert(views(r.required->0@) =~= seq!["file_path"@, "file_content"@]);
                assert(property_views(r.properties->0@) =~= ToolName::WriteFile.spec_properties()->0);
                r
            },
            ToolName::UnitTest => {
                let mut props = Vec::new();
                props.push(prop("test_name", "string", "Run specified test. If undefined, run all tests"));
                let r = object_schema(props, Vec::new());
                assert(views(r.required->0@) =~= Seq::<Seq<char>>::empty());
                assert(property_views(r.properties->0@) =~= ToolName::UnitTest.spec_properties()->0);
                r
            },
            ToolName::GitLog => {
                let mut props = Vec::new();
                props.push(array_prop("file_paths", "string", "file path"));
                let r = object_schema(props, string_list(&["file_path"]));
                assert(views(r.required->0@) =~= seq!["file_path"@]);
                assert(property_views(r.properties->0@) =~= ToolName::GitLog.spec_properties()->0);
                r
            },
            ToolName::GitCreateCommit => {
                let mut props = Vec::new();
                props.push(prop("commit_message", "string", "commit message"));
                let r = object_schema(props, Vec::new());
                assert(views(r.required->0@) =~= Seq::<Seq<char>>::empty());
                assert(property_views(r.properties->0@) =~= ToolName::GitCreateCommit.spec_properties()->0);
                r
            },
            ToolName::Cargo => {
                let mut props = Vec::new();
                props.push(prop("subcommand", "string", "The cargo subcommand to run, e.g. build, test, check, clippy, fmt, doc, run, bench"));
                props.push(array_prop("args", "string", "Additional argument or flag, e.g. \"--release\", \"--all-features\", \"my_test_name\""));
                let r = object_schema(props, string_list(&["subcommand"]));
                assert(views(r.required->0@) =~= seq!["subcommand"@]);
                assert(property_views(r.properties->0@) =~= ToolName::Cargo.spec_properties()->0);
                r
            },
            ToolName::Git | ToolName::GitCheckout => array_of_strings_schema(opt_str("arguments")),
            ToolName::GitShowCommit => {
                let mut r = JsonSchema::empty();
                r.kind = opt_str("string");
                r.description = opt_str("commit hash to query, if omit, show recent commit");
                r
            },
            ToolName::Compile | ToolName::Format | ToolName::LintCheck | ToolName::GitDiff => {
                JsonSchema::empty()
            },
        }
    }

    /// The prototype that the model is offered: a function of the tool's
    /// name, parameters and description.
    pub fn prototype(&self) -> (r: OpenAiToolPrototype)
        ensures
            is_prototype_of(r, *self),
    {
        OpenAiToolPrototype::from_function(
            OpenAiFunctionPrototype {
                name: self.name(),
                parameters: self.parameters(),
                description: Some(self.description()),
            },
        )
    }
}

/// The prototypes of `tools`, in order.
fn prototypes(tools: &[ToolName]) -> (r: Vec<OpenAiToolPrototype>)
    ensures
        prototypes_of(r@, tools@),
{
    let mut r: Vec<OpenAiToolPrototype> = Vec::new();
    let mut i: usize = 0;
    while i < tools.len()
        invariant
            0 <= i <= tools.len(),
            r@.len() == i,
            forall|j: int| 0 <= j < i ==> is_prototype_of(#[trigger] r@[j], tools@[j]),
        decreases tools.len() - i,
    {
        r.push(tools[i].prototype());
        i += 1;
    }
    r
}

/// The names of a list of prototypes.
pub open spec fn prototype_names(v: Seq<OpenAiToolPrototype>) -> Seq<Seq<char>> {
    Seq::new(v.len(), |i: int| v[i].function.name@)
}

/// The tools of the coding assistant.
pub open spec fn spec_code_tools() -> Seq<Seq<char>> {
    seq![
        "compile"@,
        "file_list"@,
        "code_format"@,
        "git_commit_changes"@,
        "git_diff"@,
        "git_log"@,
        "git_show_commit"@,
        "grep"@,
        "lint_check"@,
        "read_file"@,
        "unit_test"@,
        "write_files"@,
        "git_checkout"@,
    ]
}

/// The tools of a patch review.
pub open spec fn spec_patch_review_tools() -> Seq<Seq<char>> {
    seq![
        "compile"@,
        "file_list"@,
        "code_format"@,
        "git_log"@,
        "git_show_commit"@,
        "grep"@,
        "lint_check"@,
        "read_file"@,
        "unit_test"@,
        "write_files"@,
        "git_checkout"@,
    ]
}

/// The tools of the coding loop of the older tool set.
pub open spec fn spec_coding_prototypes() -> Seq<Seq<char>> {
    seq![
        "compile"@,
        "file_list"@,
        "git_commit_changes"@,
        "git_diff"@,
        "git_log"@,
        "git_show_commit"@,
        "lint_check"@,
        "read_file"@,
        "grep"@,
        "unit_test"@,
        "write_files"@,
    ]
}

/// The tools of the review loop of the older tool set.
pub open spec fn spec_review_prototypes() -> Seq<Seq<char>> {
    seq![
        "git_show_commit"@,
        "file_list"@,
        "read_file"@,
        "write_files"@,
        "compile"@,
        "unit_test"@,
        "grep"@,
        "code_format"@,
    ]
}

/// The tools of the coding assistant, in order.
pub open spec fn spec_code_tool_set() -> Seq<ToolName> {
    seq![
        ToolName::Compile,
        ToolName::FileList,
        ToolName::Format,
        ToolName::GitCreateCommit,
        ToolName::GitDiff,
        ToolName::GitLog,
        ToolName::GitShowCommit,
        ToolName::Grep,
        ToolName::LintCheck,
        ToolName::ReadFile,
        ToolName::UnitTest,
        ToolName::WriteFile,
        ToolName::GitCheckout,
    ]
}

/// The tools of a patch review, in order.
pub open spec fn spec_patch_review_tool_set() -> Seq<ToolName> {
    seq![
        ToolName::Compile,
        ToolName::FileList,
        ToolName::Format,
        ToolName::GitLog,
        ToolName::GitShowCommit,
        ToolName::Grep,
        ToolName::LintCheck,
        ToolName::ReadFile,
        ToolName::UnitTest,
        ToolName::WriteFile,
        ToolName::GitCheckout,
    ]
}

/// The tools of the coding loop of the older tool set, in order.
pub open spec fn spec_coding_tool_set() -> Seq<ToolName> {
    seq![
        ToolName::Compile,
        ToolName::FileList,
        ToolName::GitCreateCommit,
        ToolName::GitDiff,
        ToolName::GitLog,
        ToolName::GitShowCommit,
        ToolName::LintCheck,
        ToolName::ReadFile,
        ToolName::Grep,
        ToolName::UnitTest,
        ToolName::WriteFile,
    ]
}

/// The tools of the review loop of the older tool set, in order.
pub open spec fn spec_review_tool_set() -> Seq<ToolName> {
    seq![
        ToolName::GitShowCommit,
        ToolName::FileList,
        ToolName::ReadFile,
        ToolName::WriteFile,
        ToolName::Compile,
        ToolName::UnitTest,
        ToolName::Grep,
        ToolName::Format,
    ]
}

fn named(tools: &[ToolName], Ghost(want): Ghost<Seq<Seq<char>>>) -> (r: Vec<OpenAiToolPrototype>)
    requires
        tools@.len() == want.len(),
        forall|i: int| 0 <= i < want.len() ==> tools@[i].spec_name() == #[trigger] want[i],
    ensures
        prototype_names(r@) == want,
        prototypes_of(r@, tools@),
{
    let r = prototypes(tools);
    assert(prototype_names(r@) =~= want);
    r
}

/// Builds the tool lists.
#[derive(Debug)]
pub struct TheyaTools;

impl TheyaTools {
    /// The tools that the coding assistant offers.
    pub fn code() -> (r: Vec<OpenAiToolPrototype>)
        ensures
            prototype_names(r@) == spec_code_tools(),
            prototypes_of(r@, spec_code_tool_set()),
    {
        named(
            &[
                ToolName::Compile,
                ToolName::FileList,
                ToolName::Format,
                ToolName::GitCreateCommit,
                ToolName::GitDiff,
                ToolName::GitLog,
                ToolName::GitShowCommit,
                ToolName::Grep,
                ToolName::LintCheck,
                ToolName::ReadFile,
                ToolName::UnitTest,
                ToolName::WriteFile,
                ToolName::GitCheckout,
            ],
            Ghost(spec_code_tools()),
        )
    }

    /// The tools that a patch review offers.
    pub fn patch_review() -> (r: Vec<OpenAiToolPrototype>)
        ensures
            prototype_names(r@) == spec_patch_review_tools(),
            prototypes_of(r@, spec_patch_review_tool_set()),
    {
        named(
            &[
                ToolName::Compile,
                ToolName::FileList,
                ToolName::Format,
                ToolName::GitLog,
                ToolName::GitShowCommit,
                ToolName::Grep,
                ToolName::LintCheck,
                ToolName::ReadFile,
                ToolName::UnitTest,
                ToolName::WriteFile,
                ToolName::GitCheckout,
            ],
            Ghost(spec_patch_review_tools()),
        )
    }
}

/// The tools of the coding loop, in the order of the older tool set.
pub fn gen_tool_prototypes_for_coding() -> (r: Vec<OpenAiToolPrototype>)
    ensures
        prototype_names(r@) == spec_coding_prototypes(),
        prototypes_of(r@, spec_coding_tool_set()),
{
    named(
        &[
            ToolName::Compile,
            ToolName::FileList,
            ToolName::GitCreateCommit,
            ToolName::GitDiff,
            ToolName::GitLog,
            ToolName::GitShowCommit,
            ToolName::LintCheck,
            ToolName::ReadFile,
            ToolName::Grep,
            ToolName::UnitTest,
            ToolName::WriteFile,
        ],
        Ghost(spec_coding_prototypes()),
    )
}

/// The tools of the review loop, in the order of the older tool set.
pub fn gen_tool_prototypes_for_review() -> (r: Vec<OpenAiToolPrototype>)
    ensures
        prototype_names(r@) == spec_review_prototypes(),
        prototypes_of(r@, spec_review_tool_set()),
{
    named(
        &[
            ToolName::GitShowCommit,
            ToolName::FileList,
            ToolName::ReadFile,
            ToolName::WriteFile,
            ToolName::Compile,
            ToolName::UnitTest,
            ToolName::Grep,
            ToolName::Format,
        ],
        Ghost(spec_review_prototypes()),
    )
}

} // verus!
