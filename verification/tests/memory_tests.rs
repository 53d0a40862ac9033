use theya::cmd::{run_command_checked, CommandOutput};
use theya::error::{ErrorKind, TheyaError};
use theya::git::Git;
use theya::json::{json_string, json_string_array, JsonValue};
use theya::memory::{
    chunk_text, confirms, db_path, epoch_from_metadata, events_path, extraction_prompt, file_name,
    file_note, interactive_note, knowledge_entry, list_title, metadata_value, missing_note_source,
    needs_recalc, note_entries, note_template, parse_copilot_events, parse_copilot_log,
    read_project_from_workspace,
    session_is_new,
    unix_timestamp, unresolved_path, workspace_project, AgentHistory, CopilotHistory,
    CopilotHistoryStore, CHUNK_OVERLAP, CHUNK_SIZE,
};
use theya::memory::{on_events, on_workspace, visit_session, SessionStep};
use theya::text::{lines, split_nonempty, trim_str};

fn s(v: &str) -> String {
    v.to_string()
}

fn is_uuid_v4(t: &str) -> bool {
    let b: Vec<char> = t.chars().collect();
    b.len() == 36
        && b.iter().enumerate().all(|(i, c)| {
            if [8, 13, 18, 23].contains(&i) {
                *c == '-'
            } else {
                c.is_ascii_digit() || ('a'..='f').contains(c)
            }
        })
        && b[14] == '4'
        && ['8', '9', 'a', 'b'].contains(&b[19])
}

#[test]
fn short_text_is_one_chunk() {
    assert_eq!(chunk_text("hello", 10, 3), vec![s("hello")]);
    assert_eq!(chunk_text("", 10, 3), vec![s("")]);
}

#[test]
fn long_text_is_overlapping_windows() {
    assert_eq!(chunk_text("abcdefghij", 4, 1), vec![s("abcd"), s("defg"), s("ghij")]);
    assert_eq!(chunk_text("abcdefghijk", 4, 1), vec![s("abcd"), s("defg"), s("ghij"), s("jk")]);
    assert_eq!(chunk_text("abcde", 2, 5), vec![s("ab"), s("bc"), s("cd"), s("de")]);
    let text: String = "x".repeat(3000);
    let chunks = chunk_text(&text, CHUNK_SIZE, CHUNK_OVERLAP);
    assert_eq!(chunks.iter().map(|c| c.chars().count()).collect::<Vec<_>>(), vec![1500, 1500, 400]);
}

#[test]
fn note_entries_tag_chunks() {
    let one = note_entries(vec![s("a")], "file:/x", "x", "10");
    assert_eq!(one[0].source, "file:/x");
    assert_eq!(one[0].role, "note");
    assert!(is_uuid_v4(&one[0].id));
    let two = note_entries(vec![s("a"), s("b")], "file:/x", "x", "10");
    assert_eq!(two[0].source, "file:/x:chunk-0");
    assert_eq!(two[1].source, "file:/x:chunk-1");
    assert_eq!(two[1].content, "b");
    assert_eq!(two[1].created_at, "10");
    assert_ne!(two[0].id, two[1].id);
}

#[test]
fn interactive_notes() {
    let raw = format!("{}remember: use rg\n# not this\n\n", note_template());
    let n = interactive_note(&raw).unwrap();
    assert_eq!(n.content, "remember: use rg");
    assert_eq!(n.title, "interactive note");
    assert!(n.source.starts_with("interactive:"));
    assert!(is_uuid_v4(&n.source["interactive:".len()..]));
    let e = interactive_note(&note_template()).unwrap_err();
    assert_eq!((e.kind, e.msg.as_str()), (ErrorKind::EmptyInput, "No content provided"));
}

#[test]
fn file_names_of_paths() {
    assert_eq!(file_name("/home/u/notes.md"), Some(s("notes.md")));
    assert_eq!(file_name("notes.md"), Some(s("notes.md")));
    assert_eq!(file_name("/home/u/dir/"), Some(s("dir")));
    assert_eq!(file_name("/home/u/dir/."), Some(s("dir")));
    assert_eq!(file_name("/home/u/.."), None);
    assert_eq!(file_name("/"), None);
    assert_eq!(file_name(""), None);
    let n = file_note("/home/u/notes.md", s("body"));
    assert_eq!((n.source.as_str(), n.title.as_str(), n.content.as_str()), ("file:/home/u/notes.md", "notes.md", "body"));
    assert_eq!(file_note("/", s("")).title, "/");
}

#[test]
fn memory_errors_and_paths() {
    let e = missing_note_source();
    assert_eq!((e.kind, e.msg.as_str()), (ErrorKind::Bug, "Provide a file path or pass --interactive"));
    let e = unresolved_path("x.md", "No such file or directory (os error 2)");
    assert_eq!(e.msg, "Cannot resolve path 'x.md': No such file or directory (os error 2)");
    assert_eq!(db_path("/home/u"), "/home/u/.local/share/theya/knowledge_db");
    let store = CopilotHistoryStore::new(s("/home/u"));
    assert_eq!(store.session_dir(), "/home/u/.copilot/session-state");
    assert_eq!(events_path("/d", "abc"), "/d/abc/events.jsonl");
}

#[test]
fn knowledge_entries() {
    let long = "k".repeat(70);
    let e = knowledge_entry("0123456789abcdef", &format!("  {long}  "), "1700000000", "github:cathay4t/theya").unwrap();
    assert_eq!(e.source, "copilot:0123456789abcdef");
    assert_eq!(e.title, "Copilot session 01234567");
    assert_eq!(e.content, long);
    assert_eq!(e.role, "knowledge");
    assert_eq!(e.project, "github:cathay4t/theya");
    assert!(is_uuid_v4(&e.id));
    assert!(knowledge_entry("abc", "too short", "1", "").is_none());
    assert_eq!(knowledge_entry("abc", &long, "1", "").unwrap().title, "Copilot session abc");
}

#[test]
fn listing_titles() {
    assert_eq!(list_title("short"), "short");
    let long = "t".repeat(41);
    assert_eq!(list_title(&long), format!("{}…", "t".repeat(37)));
}

#[test]
fn metadata_lookups() {
    let keys = vec![s("a"), s("last_update"), s("last_update")];
    let values = vec![s("1"), s("42"), s("43")];
    assert_eq!(metadata_value(&keys, &values, "last_update"), Some(s("42")));
    assert_eq!(metadata_value(&keys, &values, "x"), None);
    assert_eq!(epoch_from_metadata(Ok(Some(s("42")))), 42);
    assert_eq!(epoch_from_metadata(Ok(Some(s("4x")))), 0);
    assert_eq!(epoch_from_metadata(Ok(None)), 0);
    assert_eq!(epoch_from_metadata(Err(TheyaError::bug("db"))), 0);
}

#[test]
fn recalc_and_confirm() {
    assert!(needs_recalc("search", Some("m1"), "m2"));
    assert!(needs_recalc("dump", Some("m1"), "m2"));
    assert!(needs_recalc("load", Some("m1"), "m2"));
    assert!(!needs_recalc("recalc", Some("m1"), "m2"));
    assert!(!needs_recalc("search", Some("m2"), "m2"));
    assert!(!needs_recalc("search", None, "m2"));
    assert!(confirms(" y\n"));
    assert!(confirms("Y"));
    assert!(!confirms("yes"));
}

#[test]
fn copilot_histories() {
    let ev = |kind: &str, content: &str, ts: &str, parent: Option<&str>| {
        let mut data = vec![(s("content"), JsonValue::Str(s(content)))];
        if let Some(p) = parent {
            data.push((s("parentToolCallId"), JsonValue::Str(s(p))));
        }
        Some(JsonValue::Object(vec![
            (s("type"), JsonValue::Str(s(kind))),
            (s("timestamp"), JsonValue::Str(s(ts))),
            (s("data"), JsonValue::Object(data)),
        ]))
    };
    let events = vec![
        ev("user.message", "  hi  ", "2024-01-01T00:00:01Z", None),
        None,
        ev("assistant.message", "sub", "2024-01-01T00:00:02Z", Some("t1")),
        ev("assistant.message", "hello", "2024-01-01T00:00:03Z", None),
        ev("tool.result", "x", "2024-01-01T00:00:04Z", None),
        ev("user.message", "   ", "2024-01-01T00:00:05Z", None),
    ];
    let messages = parse_copilot_events(&events);
    assert_eq!(messages.len(), 2);
    assert_eq!((messages[0].role.as_str(), messages[0].content.as_str()), ("user", "hi"));
    assert_eq!(messages[1].role, "assistant");
    let h = CopilotHistory { session_id: s("sess"), messages, project: String::new() };
    assert_eq!(h.max_timestamp(), "2024-01-01T00:00:03Z");
    assert_eq!(h.format_conversation(), "User: hi\n\nAssistant: hello");
    assert!(extraction_prompt(&h).ends_with(":\n\nUser: hi\n\nAssistant: hello"));
    let empty = CopilotHistory { session_id: s("e"), messages: vec![], project: String::new() };
    assert_eq!(empty.max_timestamp(), "");
    let unstamped = CopilotHistory {
        session_id: s("u"),
        messages: vec![AgentHistory { role: s("user"), content: s("c"), timestamp: String::new() }],
        project: String::new(),
    };
    assert_eq!(unstamped.max_timestamp(), "");
    assert!(session_is_new(None, 10));
    assert!(!session_is_new(Some(10), 10));
    assert_eq!(workspace_project(Some("github"), Some("o/r")).unwrap(), "github:o/r");
    assert_eq!(workspace_project(None, Some("o/r")).unwrap_err().msg, "Missing host_type in workspace.yaml");
}

#[test]
fn clock_gives_decimal_seconds() {
    let t = unix_timestamp();
    assert!(!t.is_empty());
    assert!(t.chars().all(|c| c.is_ascii_digit()));
    assert!(t.parse::<u64>().unwrap() > 1_600_000_000);
}

#[test]
fn checked_commands() {
    let args = vec![s("log"), s("-1")];
    let ok = Ok(CommandOutput { success: true, code: Some(0), stdout: s("out"), stderr: String::new() });
    assert_eq!(run_command_checked("git", &args, ok).unwrap(), "out");
    let failed = Ok(CommandOutput { success: false, code: None, stdout: String::new(), stderr: s("boom") });
    let e = run_command_checked("git", &args, failed).unwrap_err();
    assert_eq!((e.kind, e.msg.as_str()), (ErrorKind::Bug, "Command `git log -1` failed with rc 0 and message: boom"));
    let root = Git::get_root_dir_path(Ok(CommandOutput { success: true, code: Some(0), stdout: s("/repo\n"), stderr: String::new() }));
    assert_eq!(root.unwrap(), "/repo");
    let files = Git::file_list(None, Ok(CommandOutput { success: true, code: Some(0), stdout: s("a\n\nb\n"), stderr: String::new() }));
    assert_eq!(files.unwrap(), vec![s("a"), s("b")]);
    assert_eq!(Git::patch_title_args(), vec![s("log"), s("-1"), s("--pretty=%s")]);
}

#[test]
fn text_helpers() {
    assert_eq!(lines("a\r\nb\n\nc"), vec![s("a"), s("b"), s(""), s("c")]);
    assert_eq!(split_nonempty("//a//b/", '/'), vec![s("a"), s("b")]);
    assert_eq!(trim_str("\t x y \n"), "x y");
}

#[test]
fn json_text_of_strings() {
    assert_eq!(json_string("a\"b\\c\n\t\u{1}é"), "\"a\\\"b\\\\c\\n\\t\\u0001é\"");
    assert_eq!(json_string_array(&vec![s("x"), s("y\"")]), "[\"x\",\"y\\\"\"]");
    assert_eq!(json_string_array(&vec![]), "[]");
    for sample in ["plain", "quote\"", "ctl\u{7}\u{1f}", "\u{8}\u{c}\r"] {
        let ours = json_string(sample);
        let theirs = serde_json::to_string(sample).unwrap();
        assert_eq!(ours, theirs);
    }
}

#[test]
fn workspace_projects() {
    assert_eq!(
        read_project_from_workspace("host_type: github\nrepository: owner/repo\nbranch: main\n").unwrap(),
        "github:owner/repo"
    );
    let e = read_project_from_workspace("repository: owner/repo\n").unwrap_err();
    assert_eq!((e.kind, e.msg.as_str()), (ErrorKind::Bug, "Missing host_type in workspace.yaml"));
    let e = read_project_from_workspace("host_type: github\n").unwrap_err();
    assert_eq!(e.msg, "Missing repository in workspace.yaml");
    let e = read_project_from_workspace("host_type: [unclosed\n").unwrap_err();
    assert!(e.msg.starts_with("Failed to parse workspace.yaml: "));
}

#[test]
fn copilot_log_lines() {
    let log = [
        "{\"type\":\"user.message\",\"timestamp\":\"t1\",\"data\":{\"content\":\" fix it \"}}\n",
        "not json\n",
        "{\"type\":\"assistant.message\",\"timestamp\":\"t2\",\"data\":{\"content\":\"done\",\"parentToolCallId\":null}}\n",
        "{\"type\":\"assistant.message\",\"timestamp\":\"t3\",\"data\":{\"content\":\"sub\",\"parentToolCallId\":\"x\"}}\n",
    ]
    .join("");
    let messages = parse_copilot_log(&log);
    assert_eq!(messages.len(), 2);
    assert_eq!((messages[0].role.as_str(), messages[0].content.as_str(), messages[0].timestamp.as_str()), ("user", "fix it", "t1"));
    assert_eq!((messages[1].role.as_str(), messages[1].content.as_str()), ("assistant", "done"));
}

#[test]
fn reading_sessions() {
    assert!(matches!(visit_session("/d", s("f"), false, None, 0), SessionStep::Skip));
    assert!(matches!(visit_session("/d", s("old"), true, Some(5), 10), SessionStep::Skip));
    let (path, id) = match visit_session("/d", s("abc"), true, None, 10) {
        SessionStep::ReadEvents { path, session_id } => (path, session_id),
        _ => panic!("expected the events to be read"),
    };
    assert_eq!(path, "/d/abc/events.jsonl");
    assert!(matches!(on_events("/d", id.clone(), None).unwrap(), SessionStep::Skip));
    assert!(matches!(on_events("/d", id.clone(), Some(Ok(s("x\n")))).unwrap(), SessionStep::Skip));
    let e = on_events("/d", id.clone(), Some(Err(TheyaError::bug("unreadable")))).unwrap_err();
    assert_eq!(e.msg, "unreadable");
    let log = s("{\"type\":\"user.message\",\"timestamp\":\"t\",\"data\":{\"content\":\"q\"}}\n");
    let (path, id, messages) = match on_events("/d", id, Some(Ok(log))).unwrap() {
        SessionStep::ReadWorkspace { path, session_id, messages } => (path, session_id, messages),
        _ => panic!("expected the workspace to be read"),
    };
    assert_eq!(path, "/d/abc/workspace.yaml");
    let h = on_workspace(id, messages, Ok(s("host_type: github\nrepository: o/r\n")));
    assert_eq!((h.session_id.as_str(), h.project.as_str(), h.messages.len()), ("abc", "github:o/r", 1));
    let h = on_workspace(s("x"), vec![], Err(TheyaError::bug("missing")));
    assert_eq!(h.project, "");
}
