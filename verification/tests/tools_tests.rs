use theya::cmd::CommandOutput;
use theya::config::TheyaProjectConfig;
use theya::error::{ErrorKind, TheyaError};
use theya::json::JsonValue;
use theya::ollama::{OllamaFunction, OllamaTool};
use theya::openai::{OpenAiApiToolCall, OpenAiApiToolFunction, OpenAiChatMessageRole, OpenAiTool};
use theya::tool_call::{
    handle_tool, read_panics, resume_check, resume_read, resume_run, resume_write, start_tool,
    AfterCheck, AfterRead, AfterRun, ToolStep,
};
use theya::tools::{
    gen_tool_prototypes_for_coding, gen_tool_prototypes_for_review, range_select_panics,
    select_line_range, TheyaTools, ToolName,
};

fn s(v: &str) -> String {
    v.to_string()
}

fn obj(members: Vec<(&str, JsonValue)>) -> JsonValue {
    JsonValue::Object(members.into_iter().map(|(k, v)| (s(k), v)).collect())
}

fn text(v: &str) -> JsonValue {
    JsonValue::Str(s(v))
}

fn reply_of(step: ToolStep) -> String {
    match step {
        ToolStep::Reply(t) => t,
        _ => panic!("expected a reply"),
    }
}

fn ok_output(stdout: &str) -> Result<CommandOutput, TheyaError> {
    Ok(CommandOutput { success: true, code: Some(0), stdout: s(stdout), stderr: String::new() })
}

fn failed_output(code: Option<i32>, stdout: &str, stderr: &str) -> Result<CommandOutput, TheyaError> {
    Ok(CommandOutput { success: false, code, stdout: s(stdout), stderr: s(stderr) })
}

fn project() -> TheyaProjectConfig {
    TheyaProjectConfig {
        git: s("https://example.com/p.git"),
        compile: Some(s("cargo build")),
        format: None,
        lint: None,
        unit_test: Some(s("cargo test")),
        integ_test: None,
    }
}

const FIVE_LINES: &str = "1\n2\n3\n4\n5\n";

#[test]
fn read_range() {
    assert_eq!(select_line_range(FIVE_LINES, None, None).unwrap(), "1\n2\n3\n4\n5\n".to_string());
    assert_eq!(select_line_range(FIVE_LINES, Some(1), None).unwrap(), "1\n2\n3\n4\n5\n".to_string());
    assert_eq!(select_line_range(FIVE_LINES, Some(0), None).unwrap(), "1\n2\n3\n4\n5\n".to_string());
    assert_eq!(select_line_range(FIVE_LINES, Some(2), None).unwrap(), "2\n3\n4\n5\n".to_string());
    assert_eq!(select_line_range(FIVE_LINES, Some(2), Some(3)).unwrap(), "2\n3\n".to_string());
    assert_eq!(select_line_range(FIVE_LINES, Some(2), Some(2)).unwrap(), "2\n".to_string());
    assert_eq!(select_line_range(FIVE_LINES, Some(2), Some(9)).unwrap(), "2\n3\n4\n5\n".to_string());
}

#[test]
fn read_range_end_before_start_is_refused() {
    let e = select_line_range(FIVE_LINES, Some(4), Some(2)).unwrap_err();
    assert_eq!(e.kind, ErrorKind::AiInvalidReply);
    assert_eq!(
        e.msg,
        "ToolReadFile(): Invalid argument line_start and line_end: line_end should equal or bigger than line_start"
    );
}

#[test]
fn read_range_of_empty_file() {
    assert_eq!(select_line_range("", None, None).unwrap(), "\n");
    assert!(range_select_panics("", Some(1), None));
    assert!(!range_select_panics("", None, None));
    assert!(!range_select_panics("a\n", Some(3), Some(1)));
}

#[test]
fn tool_names_round_trip() {
    for t in [ToolName::FileList, ToolName::ReadFile, ToolName::Grep, ToolName::GitDiff] {
        assert_eq!(ToolName::from_name(&t.name()), Some(t));
    }
    assert_eq!(ToolName::from_name("git"), None);
    assert_eq!(ToolName::from_name("cargo"), None);
    assert_eq!(ToolName::from_name("nope"), None);
    assert_eq!(ToolName::WriteFile.name(), "write_files");
    assert_eq!(ToolName::Format.name(), "code_format");
}

#[test]
fn tool_lists_in_order() {
    let names = |v: Vec<theya::openai::OpenAiToolPrototype>| {
        v.into_iter().map(|p| p.function.name).collect::<Vec<String>>()
    };
    assert_eq!(
        names(TheyaTools::code()),
        vec![
            "compile", "file_list", "code_format", "git_commit_changes", "git_diff", "git_log",
            "git_show_commit", "grep", "lint_check", "read_file", "unit_test", "write_files",
            "git_checkout",
        ]
    );
    assert_eq!(
        names(TheyaTools::patch_review()),
        vec![
            "compile", "file_list", "code_format", "git_log", "git_show_commit", "grep",
            "lint_check", "read_file", "unit_test", "write_files", "git_checkout",
        ]
    );
    assert_eq!(names(gen_tool_prototypes_for_coding()).len(), 11);
    assert_eq!(
        names(gen_tool_prototypes_for_review()),
        vec![
            "git_show_commit", "file_list", "read_file", "write_files", "compile", "unit_test",
            "grep", "code_format",
        ]
    );
    for p in TheyaTools::code() {
        assert_eq!(p.kind, "function");
    }
}

#[test]
fn read_file_parameters() {
    let schema = ToolName::ReadFile.parameters();
    assert_eq!(schema.kind.as_deref(), Some("object"));
    let props = schema.properties.unwrap();
    let names: Vec<&str> = props.iter().map(|(n, _)| n.as_str()).collect();
    assert_eq!(names, vec!["file_path", "line_start", "line_end"]);
    assert_eq!(props[1].1.kind.as_deref(), Some("integer"));
    assert_eq!(schema.required, Some(vec![s("file_path")]));
    assert!(ToolName::Compile.parameters().kind.is_none());
    assert_eq!(ToolName::GitShowCommit.parameters().kind.as_deref(), Some("string"));
}

#[test]
fn unknown_tool_is_refused() {
    let tool = OpenAiTool::from_api_call(
        OpenAiApiToolCall {
            id: s("call-1"),
            kind: s("function"),
            function: OpenAiApiToolFunction { name: s("rm_rf"), arguments: s("{}") },
        },
        None,
    );
    let step = TheyaTools::handle(&tool, &project());
    assert_eq!(reply_of(step), "\"FAIL: Invalid tool_name rm_rf\"");
    let msg = TheyaTools::reply(&tool, s("\"x\""));
    assert_eq!(msg.role, OpenAiChatMessageRole::Tool);
    assert_eq!(msg.tool_call_id.as_deref(), Some("call-1"));
    assert_eq!(msg.content.as_deref(), Some("\"x\""));
}

#[test]
fn read_file_without_path_is_a_bug() {
    let step = start_tool(ToolName::ReadFile, &obj(vec![]), &project());
    assert_eq!(
        reply_of(step),
        "\"FAIL: Bug: ToolReadFile(): Invalid argument: expecting object with `file_path`\""
    );
}

#[test]
fn read_file_with_empty_path() {
    let step = start_tool(ToolName::ReadFile, &obj(vec![("file_path", text(""))]), &project());
    assert_eq!(
        reply_of(step),
        "\"FAIL: AiInvalidReply: Got empty file_path, please provide file_path as string\\n                    for file you want to read\""
    );
}

#[test]
fn read_file_checks_then_reads() {
    let args = obj(vec![
        ("file_path", text("src/lib.rs")),
        ("line_start", JsonValue::Number(Some(2), "2".to_string())),
        ("line_end", JsonValue::Number(Some(3), "3".to_string())),
    ]);
    let step = start_tool(ToolName::ReadFile, &args, &project());
    let next = match step {
        ToolStep::Check { path, next } => {
            assert_eq!(path, "src/lib.rs");
            next
        },
        _ => panic!("expected a path check"),
    };
    let step = resume_check(next, Ok(true));
    let next = match step {
        ToolStep::Read { path, next } => {
            assert_eq!(path, "src/lib.rs");
            next
        },
        _ => panic!("expected a read"),
    };
    assert!(!read_panics(&next, &Ok(s(FIVE_LINES))));
    assert_eq!(reply_of(resume_read(next, Ok(s(FIVE_LINES)))), "\"2\\n3\\n\"");
}

#[test]
fn read_file_outside_is_refused() {
    let next = AfterCheck::ReadFile { path: s("/etc/passwd"), start: None, end: None };
    assert_eq!(
        reply_of(resume_check(next, Ok(false))),
        "\"FAIL: AiInvalidReply: Cannot access file /etc/passwd outside of current working directory\""
    );
    let next = AfterCheck::WriteFile { path: s("../x"), content: s("y") };
    assert_eq!(
        reply_of(resume_check(next, Ok(false))),
        "\"FAIL: AiInvalidReply: Cannot write file ../x outside of current working directory\""
    );
    let next = AfterCheck::Grep { path: s("/"), pattern: s("a") };
    let failed = Err(TheyaError::new(ErrorKind::IoError, s("std::io::Error: denied")));
    assert_eq!(reply_of(resume_check(next, failed)), "\"FAIL: IoError: std::io::Error: denied\"");
}

#[test]
fn read_file_errors() {
    let next = AfterRead { start: Some(3), end: Some(1) };
    assert_eq!(
        reply_of(resume_read(next, Ok(s(FIVE_LINES)))),
        "\"FAIL: AiInvalidReply: ToolReadFile(): Invalid argument line_start and line_end: line_end should equal or bigger than line_start\""
    );
    let next = AfterRead { start: Some(1), end: None };
    assert!(read_panics(&next, &Ok(String::new())));
}

#[test]
fn write_file_flow() {
    let args = obj(vec![("file_path", text("a.txt")), ("file_content", text("hi"))]);
    let next = match start_tool(ToolName::WriteFile, &args, &project()) {
        ToolStep::Check { next, .. } => next,
        _ => panic!("expected a path check"),
    };
    match resume_check(next, Ok(true)) {
        ToolStep::Write { path, content } => {
            assert_eq!(path, "a.txt");
            assert_eq!(content, "hi");
        },
        _ => panic!("expected a write"),
    }
    assert_eq!(reply_of(resume_write(None)), "\"PASS\"");
    assert_eq!(reply_of(resume_write(Some(s("No space left")))), "\"FAIL: No space left\"");
    let bad = start_tool(ToolName::WriteFile, &obj(vec![("file_path", text("a"))]), &project());
    assert_eq!(
        reply_of(bad),
        "\"FAIL: Bug: ToolWriteFile(): argument should be dictionary with `file_path` and `file_content`\""
    );
}

#[test]
fn grep_flow() {
    let args = obj(vec![("path", text("src")), ("pattern", text("fn main"))]);
    let next = match start_tool(ToolName::Grep, &args, &project()) {
        ToolStep::Check { next, .. } => next,
        _ => panic!("expected a path check"),
    };
    let next = match resume_check(next, Ok(true)) {
        ToolStep::Run { program, args, next } => {
            assert_eq!(program, "rg");
            assert_eq!(args, vec![s("-e"), s("fn main"), s("src")]);
            next
        },
        _ => panic!("expected a run"),
    };
    assert_eq!(reply_of(resume_run(next, ok_output("src/a.rs:1:fn main\n"))), "\"src/a.rs:1:fn main\\n\"");
    assert_eq!(reply_of(resume_run(AfterRun::Grep, failed_output(Some(1), "", ""))), "\"error: no match\"");
    assert_eq!(
        reply_of(resume_run(AfterRun::Grep, failed_output(Some(2), "o", "bad regex"))),
        "\"FAIL: AiInvalidReply: grep failed with error 2, stdout: 'o', stderr: 'bad regex'\""
    );
    let bad = start_tool(ToolName::Grep, &obj(vec![("path", text("src"))]), &project());
    assert_eq!(
        reply_of(bad),
        "\"FAIL: Bug: ToolGrep(): Invalid argument: expecting object with `path` and `pattern`\""
    );
}

#[test]
fn command_tools() {
    match start_tool(ToolName::Compile, &obj(vec![]), &project()) {
        ToolStep::Run { program, args, .. } => {
            assert_eq!(program, "bash");
            assert_eq!(args, vec![s("-c"), s("cargo build")]);
        },
        _ => panic!("expected a run"),
    }
    assert_eq!(
        reply_of(start_tool(ToolName::LintCheck, &obj(vec![]), &project())),
        "\"tool for lint_check undefined by user, silent pass\""
    );
    match start_tool(ToolName::UnitTest, &obj(vec![("test_name", text("t1"))]), &project()) {
        ToolStep::Run { args, .. } => assert_eq!(args, vec![s("-c"), s("cargo test t1")]),
        _ => panic!("expected a run"),
    }
    assert_eq!(reply_of(resume_run(AfterRun::Status, ok_output("whatever"))), "\"PASS\"");
    assert_eq!(
        reply_of(resume_run(AfterRun::Status, failed_output(Some(101), "out", "err"))),
        "\"FAIL:out\\nerr\""
    );
    let failed = Err(TheyaError::new(ErrorKind::IoError, s("std::io::Error: not found")));
    assert_eq!(reply_of(resume_run(AfterRun::Status, failed)), "\"FAIL: IoError: std::io::Error: not found\"");
}

#[test]
fn git_tools() {
    match start_tool(ToolName::GitLog, &obj(vec![("file_paths", JsonValue::Array(vec![text("a.rs"), JsonValue::Null, text("b.rs")]))]), &project()) {
        ToolStep::Run { program, args, next } => {
            assert_eq!(program, "git");
            assert_eq!(
                args,
                vec![s("log"), s("--pretty=format:'%h %s'"), s("--max-count=10"), s("--"), s("a.rs"), s("b.rs")]
            );
            assert_eq!(reply_of(resume_run(next, ok_output("abc one\n\ndef two\n"))), "[\"abc one\",\"def two\"]");
        },
        _ => panic!("expected a run"),
    }
    match start_tool(ToolName::GitCheckout, &JsonValue::Array(vec![text("--"), text("x.rs")]), &project()) {
        ToolStep::Run { args, next, .. } => {
            assert_eq!(args, vec![s("checkout"), s("--"), s("x.rs")]);
            assert_eq!(
                reply_of(resume_run(next, failed_output(Some(1), "", "no such path"))),
                "\"FAIL: Bug: Command `git checkout -- x.rs` failed with rc 1 and message: no such path\""
            );
        },
        _ => panic!("expected a run"),
    }
    assert_eq!(
        reply_of(start_tool(ToolName::GitCheckout, &obj(vec![]), &project())),
        "\"FAIL: AiInvalidReply: git: need array of string as arguments\""
    );
    match start_tool(ToolName::GitShowCommit, &text("abc123"), &project()) {
        ToolStep::Run { args, .. } => assert_eq!(args, vec![s("show"), s("abc123")]),
        _ => panic!("expected a run"),
    }
    match start_tool(ToolName::GitCreateCommit, &obj(vec![("commit_message", text("fix"))]), &project()) {
        ToolStep::Run { args, next, .. } => {
            assert_eq!(args, vec![s("commit"), s("-a"), s("-m"), s("fix")]);
            assert_eq!(reply_of(resume_run(next, ok_output("[main 1] fix"))), "null");
        },
        _ => panic!("expected a run"),
    }
    match start_tool(ToolName::FileList, &obj(vec![("file_path", text(""))]), &project()) {
        ToolStep::Run { args, next, .. } => {
            assert_eq!(args, vec![s("ls-files"), s("./")]);
            assert_eq!(reply_of(resume_run(next, ok_output("a\nb\n"))), "[\"a\",\"b\"]");
        },
        _ => panic!("expected a run"),
    }
}

#[test]
fn cargo_tool() {
    assert_eq!(
        reply_of(start_tool(ToolName::Cargo, &obj(vec![("subcommand", text("publish"))]), &project())),
        "\"FAIL\\ncargo subcommand 'publish' is not allowed\""
    );
    match start_tool(
        ToolName::Cargo,
        &obj(vec![("subcommand", text("test")), ("args", JsonValue::Array(vec![text("--release")]))]),
        &project(),
    ) {
        ToolStep::Run { program, args, next } => {
            assert_eq!(program, "cargo");
            assert_eq!(args, vec![s("test"), s("--release")]);
            assert_eq!(reply_of(resume_run(next, ok_output("  ok \n"))), "\"PASS\\nok\"");
        },
        _ => panic!("expected a run"),
    }
    assert_eq!(
        reply_of(resume_run(AfterRun::Cargo, failed_output(Some(101), "a", "b\n"))),
        "\"FAIL\\nab\""
    );
}

#[test]
fn ollama_tool_calls_dispatch_by_name() {
    let tool = OllamaTool {
        id: s("1"),
        function: OllamaFunction { index: 0, name: s("git_diff"), arguments: JsonValue::Null },
    };
    match handle_tool(&tool, &project()) {
        ToolStep::Run { program, args, .. } => {
            assert_eq!(program, "git");
            assert_eq!(args, vec![s("diff")]);
        },
        _ => panic!("expected a run"),
    }
    let reply = theya::tool_call::ollama_tool_reply(&tool, s("\"ok\""));
    assert_eq!(reply.tool_name.as_deref(), Some("git_diff"));
    assert_eq!(reply.content, "\"ok\"");
}

#[test]
fn tool_arguments_are_parsed() {
    let call = OpenAiApiToolCall {
        id: s("c9"),
        kind: s("function"),
        function: OpenAiApiToolFunction { name: s("read_file"), arguments: s("{\"file_path\": \"x.rs\"}") },
    };
    let tool = OpenAiTool::try_from(call).unwrap();
    match TheyaTools::handle(&tool, &project()) {
        ToolStep::Check { path, .. } => assert_eq!(path, "x.rs"),
        _ => panic!("expected a path check"),
    }
    let call = OpenAiApiToolCall {
        id: s("c10"),
        kind: s("function"),
        function: OpenAiApiToolFunction { name: s("read_file"), arguments: s("not json") },
    };
    let tool = OpenAiTool::try_from(call).unwrap();
    assert!(matches!(&tool.function.arguments, JsonValue::Object(m) if m.is_empty()));
    assert_eq!(
        reply_of(TheyaTools::handle(&tool, &project())),
        "\"FAIL: Bug: ToolReadFile(): Invalid argument: expecting object with `file_path`\""
    );
}

#[test]
fn tool_argument_numbers_keep_their_text() {
    let call = OpenAiApiToolCall {
        id: s("c11"),
        kind: s("function"),
        function: OpenAiApiToolFunction { name: s("grep"), arguments: s("{\"a\": -3, \"b\": 2.5, \"c\": 7}") },
    };
    let tool = OpenAiTool::try_from(call).unwrap();
    match &tool.function.arguments {
        JsonValue::Object(m) => {
            assert_eq!(m.len(), 3);
            assert!(matches!(&m[0], (k, JsonValue::Number(None, t)) if k == "a" && t == "-3"));
            assert!(matches!(&m[1], (k, JsonValue::Number(None, t)) if k == "b" && t == "2.5"));
            assert!(matches!(&m[2], (k, JsonValue::Number(Some(7), t)) if k == "c" && t == "7"));
        },
        _ => panic!("expected an object"),
    }
}
