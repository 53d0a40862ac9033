use theya::logging::{log_settings, LogLevel};
use theya::memory::{extraction_guideline, workspace_path};
use theya::ollama::{check_generate, OllamaGenerateResponse};
use theya::chat::{answer, chat_settings, question, question_template};
use theya::code::{code_prompt, coding_task, says_done, task_template, ChatPurpose, CodeAction, CodeLoop, MAX_ITERATION};
use theya::config::{config_path, TheyaCodeConfig, TheyaPatchReviewConfig, TheyaQuickChatConfig, TheyaSlowChatConfig, default_code_guideline, default_model, default_quick_chat_max_tokens, default_uri, TheyaConfig, TheyaProjectConfig};
use theya::error::{ErrorKind, TheyaError};
use theya::json::JsonValue;
use theya::ollama::{read_file_path_of, OllamaChatMessage, OllamaChatMessageRole, OllamaChatResponse, OllamaClient, OllamaFunction, OllamaTool};
use theya::openai::{
    check_reply, default_function_type, response_text, ClientEnv, OpenAiApiToolCall, OpenAiApiToolFunction,
    OpenAiChatMessage, OpenAiChatMessageRole, OpenAiChatResponse, OpenAiChoice, OpenAiClient,
    OpenAiErrorDetail,
};
use theya::patch_review::{ReviewAction, ReviewLoop, CONTEXT_NUMBER};

fn s(v: &str) -> String {
    v.to_string()
}

fn no_env() -> ClientEnv {
    ClientEnv { theya_uri_set: false, theya_model_set: false, openai_api_key: None }
}

fn client() -> OpenAiClient {
    OpenAiClient::new("http://localhost:11434", "m", "be brief", "key", None, no_env()).unwrap()
}

fn assistant(content: &str) -> OpenAiChatMessage {
    OpenAiChatMessage::plain(OpenAiChatMessageRole::Assistant, s(content))
}

fn calling(id: &str) -> OpenAiChatMessage {
    let mut m = assistant("");
    m.tool_calls = Some(vec![OpenAiApiToolCall {
        id: s(id),
        kind: s("function"),
        function: OpenAiApiToolFunction { name: s("git_diff"), arguments: s("{}") },
    }]);
    m
}

#[test]
fn config_defaults() {
    assert_eq!(default_uri(), "https://api.openai.com");
    assert_eq!(default_model(), "gpt-4o");
    assert_eq!(default_quick_chat_max_tokens(), 1024);
    assert_eq!(config_path("/home/u"), "/home/u/.config/theya/config");
    assert!(default_code_guideline().starts_with("You are a Linux Software developer"));
}

#[test]
fn main_section_fills_the_others() {
    let mut c = TheyaConfig::default();
    c.main.uri = s("https://api.example.com");
    c.main.api_key = s("k1");
    c.quick_chat.uri = String::new();
    c.slow_chat.uri = s("https://slow.example.com");
    c.code.api_key = String::new();
    c.apply_main_config();
    assert_eq!(c.quick_chat.uri, "https://api.example.com");
    assert_eq!(c.slow_chat.uri, "https://slow.example.com");
    assert_eq!(c.code.api_key, "k1");
    assert_eq!(c.memory.uri, "https://api.example.com");
    assert_eq!(c.memory.model, c.quick_chat.model);
    assert_eq!(c.memory.embed_uri, "https://api.example.com");
    assert_eq!(c.memory.embed_model, c.quick_chat.model);
    let once = (c.memory.embed_model.clone(), c.quick_chat.uri.clone());
    c.apply_main_config();
    assert_eq!((c.memory.embed_model.clone(), c.quick_chat.uri.clone()), once);
}

#[test]
fn project_is_found_by_remote() {
    let p = |git: &str, compile: &str| TheyaProjectConfig {
        git: s(git),
        compile: Some(s(compile)),
        format: None,
        lint: None,
        unit_test: None,
        integ_test: None,
    };
    let projects = vec![(s("a"), p("https://a.git", "make")), (s("b"), p("https://b.git", "cargo build"))];
    assert_eq!(TheyaConfig::find_project(&projects, "https://b.git").compile.as_deref(), Some("cargo build"));
    let none = TheyaConfig::find_project(&projects, "https://c.git");
    assert_eq!(none.git, "");
    assert!(none.compile.is_none());
}

#[test]
fn error_text_and_retry() {
    let e = TheyaError::new(ErrorKind::Timeout, s("Request of x timeout"));
    assert_eq!(e.to_string(), "Timeout: Request of x timeout");
    assert!(e.can_retry());
    assert!(!TheyaError::bug("boom").can_retry());
    assert_eq!(TheyaError::bug("boom").to_string(), "Bug: boom");
}

#[test]
fn client_refuses_retired_variables() {
    let env = ClientEnv { theya_uri_set: true, theya_model_set: true, openai_api_key: None };
    let e = OpenAiClient::new("u", "m", "g", "", None, env).unwrap_err();
    assert_eq!(e.kind, ErrorKind::Bug);
    assert_eq!(e.msg, "The use of THEYA_URI is deprecated, please use $HOME/.config/theya/config instead");
    let env = ClientEnv { theya_uri_set: false, theya_model_set: true, openai_api_key: None };
    let e = OpenAiClient::new("u", "m", "g", "", None, env).unwrap_err();
    assert_eq!(e.msg, "The use of THEYA_MODEL is deprecated, please use $HOME/.config/theya/config instead");
    let env = ClientEnv { theya_uri_set: false, theya_model_set: false, openai_api_key: Some(s("env-key")) };
    let c = OpenAiClient::new("u", "m", "g", "", None, env).unwrap();
    assert_eq!(c.auth_header(), "Bearer env-key");
    assert_eq!(c.chat_url(), "u/v1/chat/completions");
}

#[test]
fn messages_are_system_user_history() {
    let mut c = client();
    c.set_user_message(OpenAiChatMessage::plain(OpenAiChatMessageRole::User, s("task")));
    c.add_chat_message(assistant("a1"));
    let ms = c.get_messages();
    assert_eq!(ms.len(), 3);
    assert_eq!(ms[0].role, OpenAiChatMessageRole::System);
    assert_eq!(ms[0].content.as_deref(), Some("be brief"));
    assert_eq!(ms[1].content.as_deref(), Some("task"));
    assert_eq!(ms[2].content.as_deref(), Some("a1"));
    let r = c.compress_request();
    assert_eq!(r.messages.len(), 4);
    assert!(r.messages[3].content.as_deref().unwrap().starts_with("In order to increase performance"));
    assert!(OpenAiClient::needs_compression(131073));
    assert!(!OpenAiClient::needs_compression(131072));
    c.reset_chat_history();
    assert_eq!(c.get_messages().len(), 2);
}

#[test]
fn replies_with_errors_are_refused() {
    let reply = OpenAiChatResponse {
        model: None,
        error: Some(OpenAiErrorDetail { message: s("quota") }),
        choices: None,
    };
    let e = check_reply(reply).unwrap_err();
    assert_eq!((e.kind, e.msg.as_str()), (ErrorKind::Bug, "quota"));
    let mut reply = OpenAiChatResponse {
        model: None,
        error: None,
        choices: Some(vec![OpenAiChoice { index: 0, message: assistant("hello"), finish_reason: None }]),
    };
    assert_eq!(response_text(&mut reply), "hello");
    assert_eq!(default_function_type(), "function");
}

#[test]
fn summary_replaces_history() {
    let mut c = client();
    c.add_chat_message(assistant("a"));
    c.add_chat_message(assistant("b"));
    let mut reply = OpenAiChatResponse {
        model: None,
        error: None,
        choices: Some(vec![OpenAiChoice { index: 0, message: assistant("sum"), finish_reason: None }]),
    };
    c.apply_summary(&mut reply).unwrap();
    assert_eq!(c.chat_history.len(), 1);
    assert_eq!(c.chat_history[0].content.as_deref(), Some("sum"));
    let mut empty = OpenAiChatResponse { model: None, error: None, choices: None };
    let e = c.apply_summary(&mut empty).unwrap_err();
    assert_eq!(e.msg, "Got AI reply without message");
    assert_eq!(c.chat_history.len(), 1);
}

#[test]
fn coding_task_from_editor() {
    let raw = format!("Fix the bug\n  in parser  \n{}", task_template());
    assert_eq!(coding_task(&raw).unwrap(), "Fix the bug\n  in parser");
    let e = coding_task(&task_template()).unwrap_err();
    assert_eq!(e.kind, ErrorKind::EmptyInput);
    assert_eq!(e.msg, "Got empty input, quitting");
    assert_eq!(task_template(), "\n\n<!-- Theya: Please type your request above, save and quit -->\n");
    assert!(code_prompt("T").starts_with("You been requested to modify files in current git repo for coding task:\n```\nT\n```\n"));
}

#[test]
fn done_answers() {
    assert!(says_done(&Some(s("YES, done"))));
    assert!(says_done(&Some(s("I think yes"))));
    assert!(!says_done(&Some(s("Yes"))));
    assert!(!says_done(&None));
}

#[test]
fn code_loop_turns() {
    let mut c = client();
    let (mut lp, first) = CodeLoop::begin(&mut c, "T");
    assert!(matches!(first, CodeAction::Chat(ChatPurpose::Work)));
    assert_eq!(lp.iteration, 0);
    assert_eq!(c.tools.len(), 13);
    assert!(c.chat_user_message.content.as_deref().unwrap().contains("```\nT\n```"));

    match lp.on_reply(&mut c, ChatPurpose::Work, Ok(Some(calling("c1")))) {
        CodeAction::HandleTools(calls) => assert_eq!(calls[0].id, "c1"),
        _ => panic!("expected tool calls"),
    }
    assert_eq!(lp.iteration, 0);
    assert!(matches!(lp.on_tools_handled(), CodeAction::Chat(ChatPurpose::Work)));
    assert_eq!(lp.iteration, 1);

    let before = c.chat_history.len();
    assert!(matches!(lp.on_reply(&mut c, ChatPurpose::Work, Ok(Some(assistant("done?")))), CodeAction::Chat(ChatPurpose::Check)));
    assert_eq!(c.chat_history.len(), before + 1);
    assert!(c.chat_history[before].content.as_deref().unwrap().starts_with("Do not modify any code"));

    assert!(matches!(lp.on_reply(&mut c, ChatPurpose::Check, Ok(Some(assistant("no, next: tests")))), CodeAction::Chat(ChatPurpose::Work)));
    assert_eq!(lp.iteration, 2);
    assert_eq!(c.chat_history.len(), before + 2);

    assert!(matches!(lp.on_reply(&mut c, ChatPurpose::Check, Ok(Some(assistant("YES")))), CodeAction::Stop));
    assert_eq!(c.chat_history.len(), before + 2);
}

#[test]
fn code_loop_errors() {
    let mut c = client();
    let (mut lp, _) = CodeLoop::begin(&mut c, "T");
    c.add_chat_message(assistant("x"));
    let timeout = TheyaError::new(ErrorKind::Timeout, s("t"));
    assert!(matches!(lp.on_reply(&mut c, ChatPurpose::Work, Err(timeout)), CodeAction::Chat(ChatPurpose::Work)));
    assert_eq!(c.chat_history.len(), 0);
    assert_eq!(lp.iteration, 1);
    assert!(matches!(lp.on_reply(&mut c, ChatPurpose::Work, Err(TheyaError::bug("b"))), CodeAction::Stop));
    assert!(matches!(lp.on_reply(&mut c, ChatPurpose::Work, Ok(None)), CodeAction::Chat(ChatPurpose::Work)));
    let mut last = CodeLoop { iteration: MAX_ITERATION - 1 };
    assert!(matches!(last.on_tools_handled(), CodeAction::Stop));
    assert_eq!(last.iteration, MAX_ITERATION - 1);
}

#[test]
fn chat_settings_by_mode() {
    let mut config = TheyaConfig::default();
    config.quick_chat.uri = s("q");
    config.slow_chat.uri = s("sl");
    config.slow_chat.max_tokens = Some(9);
    let quick = chat_settings(&config, false);
    assert_eq!(quick.uri, "q");
    assert_eq!(quick.max_tokens, Some(1024));
    assert!(quick.system_prompt.contains("Minimalism"));
    let slow = chat_settings(&config, true);
    assert_eq!(slow.uri, "sl");
    assert_eq!(slow.max_tokens, Some(9));
    assert!(slow.system_prompt.starts_with("You are a experienced"));
}

#[test]
fn chat_question_and_answer() {
    let tpl = question_template("http://h", "m1");
    assert_eq!(
        tpl,
        "\n\n<!-- Theya: OpenAI API connected to: http://h -->\n<!-- Theya: Model: m1 -->\n<!-- Theya: Please type your questions above, save and quit -->\n"
    );
    let raw = format!("What is Rust?\n{tpl}");
    assert_eq!(question(&raw, true).unwrap(), "What is Rust?");
    assert_eq!(question(&raw, false).unwrap(), "What is Rust? (make the answer short)");
    let e = question(&tpl, false).unwrap_err();
    assert_eq!((e.kind, e.msg.as_str()), (ErrorKind::AiInvalidReply, "Got empty question, quitting"));
    assert_eq!(
        answer("Q?", "1.50", "A.  \nB\t\n"),
        "# Question\n```\nQ?\n```\n# Time spent: 1.50 seconds.\n\n# Answer\n\nA.\nB\n\n"
    );
}

#[test]
fn ollama_client_history() {
    let mut c = OllamaClient::new("http://o", "llama", "sys", CONTEXT_NUMBER, &no_env()).unwrap();
    assert_eq!(c.chat_url(), "http://o/api/chat");
    assert_eq!(c.version_url(), "http://o/api/version");
    assert_eq!(c.generate_url(), "http://o/api/generate");
    c.add_chat_message(OllamaChatMessage::tool_reply(s("write_files"), s("\"PASS\"")));
    c.add_chat_message(OllamaChatMessage::tool_reply(s("read_file"), s("\"text\"")));
    assert_eq!(c.chat_history[0].content, "<omitted>");
    assert_eq!(c.chat_history[1].content, "\"text\"");
    let req = c.chat_request(true);
    assert_eq!(req.history.len(), 2);
    assert_eq!(req.keep_alive, "5m");
    assert!(req.last.unwrap().content.starts_with("Please continue"));
    let g = c.generate_request(s("p"));
    assert_eq!((g.system.as_str(), g.prompt.as_str(), g.stream), ("sys", "p", false));
}

#[test]
fn ollama_replies() {
    let mut c = OllamaClient::new("http://o", "llama", "sys", 4096, &no_env()).unwrap();
    let reply = |error: Option<String>, message: Option<OllamaChatMessage>| OllamaChatResponse {
        model: None,
        error,
        message,
        done: Some(true),
        done_reason: None,
        total_duration_ns: 0,
    };
    let e = c.accept_reply(reply(Some(s("oom")), None)).unwrap_err();
    assert_eq!((e.kind, e.msg.as_str()), (ErrorKind::Bug, "oom"));
    assert_eq!(c.accept_reply(reply(None, None)).unwrap(), false);
    let m = OllamaChatMessage::plain(OllamaChatMessageRole::Assistant, s("hi"));
    assert_eq!(c.accept_reply(reply(None, Some(m))).unwrap(), true);
    assert_eq!(c.chat_history.len(), 1);
    let e = c.apply_summary(reply(None, None), "Resp { .. }").unwrap_err();
    assert_eq!(e.msg, "Got AI reply without message: Resp { .. }");
    let sum = OllamaChatMessage::plain(OllamaChatMessageRole::Assistant, s("summary"));
    c.apply_summary(reply(None, Some(sum)), "").unwrap();
    assert_eq!(c.chat_history.len(), 1);
    assert_eq!(c.chat_history[0].content, "summary");
}

#[test]
fn review_loop_turns() {
    let mut c = OllamaClient::new("http://o", "llama", "sys", 4096, &no_env()).unwrap();
    let (mut lp, first) = ReviewLoop::begin(&mut c);
    assert_eq!(first, ReviewAction::Chat);
    assert_eq!(c.tools.len(), 8);
    assert_eq!(c.tools[0].function.name, "git_show_commit");
    assert!(c.chat_user_message.content.starts_with("Please review most recent git commit"));
    assert_eq!(lp.on_reply(None), ReviewAction::Chat);
    assert_eq!(lp.iteration, 1);
    let mut m = OllamaChatMessage::plain(OllamaChatMessageRole::Assistant, s(""));
    m.tool_calls = Some(vec![OllamaTool {
        id: s("1"),
        function: OllamaFunction { index: 0, name: s("git_diff"), arguments: JsonValue::Null },
    }]);
    assert_eq!(lp.on_reply(Some(&m)), ReviewAction::HandleTools);
    assert_eq!(lp.on_tools_handled(), ReviewAction::Chat);
    let done = OllamaChatMessage::plain(OllamaChatMessageRole::Assistant, s("The patch is fine."));
    assert_eq!(lp.on_reply(Some(&done)), ReviewAction::Stop);
    let mut last = ReviewLoop { iteration: 49 };
    assert_eq!(last.on_tools_handled(), ReviewAction::Stop);
}

#[test]
fn ollama_generate_replies() {
    let reply = |error: Option<String>| OllamaGenerateResponse {
        error,
        model: None,
        response: s("answer"),
        thinking: None,
        done: Some(true),
        done_reason: None,
        eval_count: Some(3),
        total_duration_ns: 10,
    };
    assert_eq!(check_generate(reply(None)).unwrap().response, "answer");
    let e = check_generate(reply(Some(s("model not found")))).unwrap_err();
    assert_eq!((e.kind, e.msg.as_str()), (ErrorKind::Bug, "model not found"));
}

#[test]
fn verbosity_levels() {
    assert_eq!(log_settings(0), (vec![s("theya"), s("reqwest")], LogLevel::Info));
    assert_eq!(log_settings(1).1, LogLevel::Debug);
    assert_eq!(log_settings(2), (vec![s("theya"), s("reqwest")], LogLevel::Trace));
    assert_eq!(log_settings(3), (vec![s("")], LogLevel::Trace));
}

#[test]
fn memory_prompts() {
    assert!(extraction_guideline().starts_with("You are a knowledge extraction assistant."));
    assert_eq!(workspace_path("/d", "abc"), "/d/abc/workspace.yaml");
}

#[test]
fn ollama_reads_supersede_earlier_reads() {
    let mut c = OllamaClient::new("http://o", "llama", "sys", 4096, &no_env()).unwrap();
    let read = |path: &str, body: &str| {
        OllamaChatMessage::tool_reply(s("read_file"), format!("{{\"file_path\": \"{path}\", \"content\": \"{body}\"}}"))
    };
    c.add_chat_message(read("a.rs", "one"));
    c.add_chat_message(read("b.rs", "two"));
    c.add_chat_message(OllamaChatMessage::tool_reply(s("read_file"), s("\"plain text\"")));
    c.add_chat_message(OllamaChatMessage::plain(OllamaChatMessageRole::Assistant, s("{\"file_path\": \"a.rs\"}")));
    assert_eq!(read_file_path_of(&c.chat_history[0]).as_deref(), Some("a.rs"));
    assert_eq!(read_file_path_of(&c.chat_history[2]), None);
    assert_eq!(read_file_path_of(&c.chat_history[3]), None);
    c.add_chat_message(read("a.rs", "three"));
    assert_eq!(c.chat_history.len(), 5);
    assert_eq!(c.chat_history[0].content, "<omitted>");
    assert_eq!(c.chat_history[0].tool_name.as_deref(), Some("read_file"));
    assert!(c.chat_history[1].content.contains("two"));
    assert_eq!(c.chat_history[2].content, "\"plain text\"");
    assert_eq!(c.chat_history[3].content, "{\"file_path\": \"a.rs\"}");
    assert!(c.chat_history[4].content.contains("three"));
}

#[test]
fn ollama_requests_are_not_streamed() {
    let c = OllamaClient::new("http://o", "llama", "sys", 4096, &no_env()).unwrap();
    let req = c.chat_request(false);
    assert!(!req.stream);
    assert!(req.system.tool_name.is_none() && req.system.tool_calls.is_none());
    assert!(req.last.is_none());
    let req = c.compress_request();
    assert!(!req.stream);
    assert!(req.last.unwrap().content.starts_with("In order to increase performance"));
}

#[test]
fn absent_sections_use_main_endpoint() {
    let mut c = TheyaConfig::default();
    c.main.uri = s("http://localhost:11434");
    c.main.api_key = s("k");
    c.quick_chat = TheyaQuickChatConfig::absent();
    c.slow_chat = TheyaSlowChatConfig::absent();
    c.patch_review = TheyaPatchReviewConfig::absent();
    c.code = TheyaCodeConfig::absent();
    c.apply_main_config();
    for uri in [&c.quick_chat.uri, &c.slow_chat.uri, &c.patch_review.uri, &c.code.uri, &c.memory.uri, &c.memory.embed_uri] {
        assert_eq!(uri, "http://localhost:11434");
    }
    assert_eq!(c.code.api_key, "k");
    assert_eq!(c.quick_chat.model, "gpt-4o");
    assert_eq!(c.quick_chat.max_tokens, 1024);
    assert_eq!(c.code.guideline, default_code_guideline());
    let mut d = TheyaConfig::default();
    d.apply_main_config();
    assert_eq!(d.code.uri, "https://api.openai.com");
}

#[test]
fn taking_the_first_message_keeps_the_choice() {
    let choice = |i: usize, text: &str| OpenAiChoice {
        index: i,
        message: OpenAiChatMessage::plain(OpenAiChatMessageRole::Assistant, s(text)),
        finish_reason: Some(s("stop")),
    };
    let mut r = OpenAiChatResponse { model: Some(s("m")), error: None, choices: Some(vec![choice(3, "first"), choice(4, "second")]) };
    let m = r.take_message().unwrap();
    assert_eq!(m.content.as_deref(), Some("first"));
    let c = r.choices.as_ref().unwrap();
    assert_eq!((c[0].index, c[0].finish_reason.as_deref()), (3, Some("stop")));
    assert_eq!(c[0].message.content.as_deref(), None);
    assert_eq!(c[1].message.content.as_deref(), Some("second"));
    let mut empty = OpenAiChatResponse { model: None, error: None, choices: None };
    assert!(empty.take_message().is_none());
}

#[test]
fn project_sections_are_unique_by_name() {
    let mut c = TheyaConfig::default();
    let project = |git: &str| TheyaProjectConfig { git: s(git), ..TheyaProjectConfig::default() };
    c.insert_project(s("a"), project("https://a"));
    c.insert_project(s("b"), project("https://b"));
    c.insert_project(s("a"), project("https://a2"));
    assert_eq!(c.projects.len(), 2);
    assert_eq!((c.projects[0].0.as_str(), c.projects[0].1.git.as_str()), ("a", "https://a2"));
    assert_eq!(c.projects[1].0, "b");
}
