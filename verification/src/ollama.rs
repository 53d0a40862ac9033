//! The chat state of an Ollama client: messages, tool calls, replies, and
//! the requests that the conversation sends.
use vstd::prelude::*;

use crate::error::{ErrorKind, TheyaError};
use crate::json::{parse_json, serde_json_parse, spec_str_member, JsonValue};
use crate::openai::{
    spec_retired_model_message, spec_retired_uri_message, ClientEnv, JsonSchema,
    OpenAiToolPrototype,
};
use crate::text::concat;

verus! {

/// Longest JSON text of the messages, in bytes, that is sent as it is; a
/// longer history is summarised first.
pub const MAX_MSG_SIZE: usize = 262144;

/// How long the server keeps the model loaded after a request.
pub const KEEPALIVE: &'static str = "5m";

/// Who wrote a message.
#[derive(Clone, Copy, Debug, PartialEq, Eq, Structural)]
pub enum OllamaChatMessageRole {
    System,
    User,
    Assistant,
    Tool,
}

/// A function that the model may call.
#[derive(Debug)]
pub struct OllamaFunctionPrototype {
    pub name: String,
    pub parameters: JsonSchema,
    pub description: Option<String>,
}

/// A tool that the model may call: a function, with its type.
#[derive(Debug)]
pub struct OllamaToolPrototype {
    pub kind: String,
    pub function: OllamaFunctionPrototype,
}

impl OllamaToolPrototype {
    /// The tool of type `function` that offers `function`.
    pub fn from_function(function: OllamaFunctionPrototype) -> (r: Self)
        ensures
            r.kind@ == "function"@,
            r.function == function,
    {
        OllamaToolPrototype { kind: String::from_str("function"), function }
    }

    /// The same tool, as an Ollama server is offered it.
    pub fn from_openai(p: OpenAiToolPrototype) -> (r: Self)
        ensures
            r.kind == p.kind,
            r.function.name == p.function.name,
            r.function.parameters == p.function.parameters,
            r.function.description == p.function.description,
    {
        OllamaToolPrototype {
            kind: p.kind,
            function: OllamaFunctionPrototype {
                name: p.function.name,
                parameters: p.function.parameters,
                description: p.function.description,
            },
        }
    }
}

/// A tool call of the model.
#[derive(Debug)]
pub struct OllamaTool {
    pub id: String,
    pub function: OllamaFunction,
}

/// The function and arguments of a tool call.
#[derive(Debug)]
pub struct OllamaFunction {
    pub index: usize,
    pub name: String,
    pub arguments: JsonValue,
}

/// A message of the conversation.
#[derive(Debug)]
pub struct OllamaChatMessage {
    pub role: OllamaChatMessageRole,
    /// On the reply to a tool call: the tool's name.
    pub tool_name: Option<String>,
    pub content: String,
    pub thinking: Option<String>,
    pub tool_calls: Option<Vec<OllamaTool>>,
}

impl OllamaChatMessage {
    /// A message of `role` that holds `content` and nothing else.
    pub fn plain(role: OllamaChatMessageRole, content: String) -> (r: Self)
        ensures
            r.role == role,
            r.content == content,
            r.tool_name is None,
            r.thinking is None,
            r.tool_calls is None,
    {
        OllamaChatMessage { role, tool_name: None, content, thinking: None, tool_calls: None }
    }

    /// The reply to a call of the tool `tool_name`, holding `content`.
    pub fn tool_reply(tool_name: String, content: String) -> (r: Self)
        ensures
            r.role == OllamaChatMessageRole::Tool,
            r.tool_name == Some(tool_name),
            r.content == content,
            r.thinking is None,
            r.tool_calls is None,
    {
        OllamaChatMessage {
            role: OllamaChatMessageRole::Tool,
            tool_name: Some(tool_name),
            content,
            thinking: None,
            tool_calls: None,
        }
    }
}

/// A request of a chat turn. The messages are the system prompt, the
/// user's request, the history, and `last` when there is one; they are
/// held by reference, as the conversation holds them.
#[derive(Debug)]
pub struct OllamaChat<'a> {
    pub model: String,
    pub system: OllamaChatMessage,
    pub user: &'a OllamaChatMessage,
    pub history: &'a Vec<OllamaChatMessage>,
    pub last: Option<OllamaChatMessage>,
    pub stream: bool,
    pub tools: &'a Vec<OllamaToolPrototype>,
    pub keep_alive: String,
    pub num_ctx: i32,
}

/// A reply to a chat turn.
#[derive(Debug)]
pub struct OllamaChatResponse {
    pub model: Option<String>,
    pub error: Option<String>,
    pub message: Option<OllamaChatMessage>,
    pub done: Option<bool>,
    pub done_reason: Option<String>,
    /// Time spent on the reply, in nanoseconds.
    pub total_duration_ns: u64,
}

/// A request of a one-shot answer.
#[derive(Debug)]
pub struct OllamaGenerate {
    pub model: String,
    pub prompt: String,
    pub system: String,
    pub stream: bool,
    pub keep_alive: String,
    pub num_ctx: i32,
}

/// A reply to a one-shot request.
#[derive(Debug)]
pub struct OllamaGenerateResponse {
    pub error: Option<String>,
    pub model: Option<String>,
    pub response: String,
    pub thinking: Option<String>,
    pub done: Option<bool>,
    pub done_reason: Option<String>,
    /// Tokens in the answer.
    pub eval_count: Option<u64>,
    /// Time spent on the answer, in nanoseconds.
    pub total_duration_ns: u64,
}

/// A client of an Ollama server: where it connects, with what model and
/// context size, and the conversation so far.
#[derive(Debug)]
pub struct OllamaClient {
    pub uri: String,
    pub model: String,
    pub guideline: String,
    pub num_ctx: i32,
    pub chat_user_message: OllamaChatMessage,
    pub chat_history: Vec<OllamaChatMessage>,
    pub tools: Vec<OllamaToolPrototype>,
}

/// `new` is `old` with nothing but its history changed.
pub open spec fn history_only(old_c: OllamaClient, new_c: OllamaClient) -> bool {
    new_c == (OllamaClient { chat_history: new_c.chat_history, ..old_c })
}

/// Whether `m` answers a call of the tool that writes files.
pub open spec fn is_write_reply(m: OllamaChatMessage) -> bool {
    m.tool_name matches Some(n) && n@ == "write_files"@
}

/// `kept` is `m` as the history keeps it: a write's content is replaced
/// by `<omitted>`, so that file contents are not sent again.
pub open spec fn kept_as(m: OllamaChatMessage, kept: OllamaChatMessage) -> bool {
    &&& kept.role == m.role
    &&& kept.tool_name == m.tool_name
    &&& kept.thinking == m.thinking
    &&& kept.tool_calls == m.tool_calls
    &&& kept.content@ == (if is_write_reply(m) {
        "<omitted>"@
    } else {
        m.content@
    })
}

/// Whether `m` answers a call of the tool that reads a file.
pub open spec fn is_read_reply(m: OllamaChatMessage) -> bool {
    m.tool_name matches Some(n) && n@ == "read_file"@
}

/// The file that the reply `m` of a read is about: its content is a JSON
/// object whose string member `file_path` names it.
pub open spec fn read_file_path(m: OllamaChatMessage) -> Option<Seq<char>> {
    if is_read_reply(m) {
        match serde_json_parse(m.content@) {
            Some(v) => spec_str_member(v, "file_path"@),
            None => None,
        }
    } else {
        None
    }
}

/// `n` is the earlier message `m` once a read of `path` came in: a read of
/// that same file has its content replaced by `<omitted>`, as the newer
/// read supersedes it; any other message stays as it was.
pub open spec fn superseded_as(m: OllamaChatMessage, n: OllamaChatMessage, path: Option<Seq<char>>) -> bool {
    if path is Some && read_file_path(m) == path {
        &&& n.role == m.role
        &&& n.tool_name == m.tool_name
        &&& n.thinking == m.thinking
        &&& n.tool_calls == m.tool_calls
        &&& n.content@ == "<omitted>"@
    } else {
        n == m
    }
}

/// `new` is `old`, where the reads of the file that `m` reads are
/// superseded, and then `m` as the history keeps it.
pub open spec fn appended_kept(
    old_h: Seq<OllamaChatMessage>,
    new_h: Seq<OllamaChatMessage>,
    m: OllamaChatMessage,
) -> bool {
    &&& new_h.len() == old_h.len() + 1
    &&& forall|i: int|
        0 <= i < old_h.len() ==> superseded_as(old_h[i], #[trigger] new_h[i], read_file_path(m))
    &&& kept_as(m, new_h.last())
}

/// The request that asks the model to summarise the conversation.
pub open spec fn spec_summary_request() -> Seq<char> {
    "In order to increase performance, please make a summery the provides messages, this summery will be used to replace historical message for follow up actions"@
}

/// The request that resumes the work after a summary.
pub open spec fn spec_continue_request() -> Seq<char> {
    "Please continue for next step if coding task is not finished"@
}

fn is_write_tool(name: &Option<String>) -> (r: bool)
    ensures
        r == (name matches Some(n) && n@ == "write_files"@),
{
    match name {
        Some(n) => *n == String::from_str("write_files"),
        None => false,
    }
}

fn is_read_tool(name: &Option<String>) -> (r: bool)
    ensures
        r == (name matches Some(n) && n@ == "read_file"@),
{
    match name {
        Some(n) => *n == String::from_str("read_file"),
        None => false,
    }
}

/// The file that the reply `m` of a read is about (see
/// [`read_file_path`]).
pub fn read_file_path_of(m: &OllamaChatMessage) -> (r: Option<String>)
    ensures
        match r {
            Some(p) => read_file_path(*m) == Some(p@),
            None => read_file_path(*m) is None,
        },
{
    if is_read_tool(&m.tool_name) {
        match parse_json(m.content.as_str()) {
            Some(v) => v.str_member("file_path"),
            None => None,
        }
    } else {
        None
    }
}

impl OllamaClient {
    /// A client of the server at `uri` with `model`, the system prompt
    /// `guideline` and the context size `num_ctx`. The retired variables
    /// `THEYA_URI` and `THEYA_MODEL` are refused.
    pub fn new(uri: &str, model: &str, guideline: &str, num_ctx: i32, env: &ClientEnv) -> (res:
        Result<Self, TheyaError>)
        ensures
            env.theya_uri_set ==> (res matches Err(e) && e.kind == ErrorKind::Bug && e.msg@
                == spec_retired_uri_message()),
            !env.theya_uri_set && env.theya_model_set ==> (res matches Err(e) && e.kind
                == ErrorKind::Bug && e.msg@ == spec_retired_model_message()),
            !env.theya_uri_set && !env.theya_model_set ==> (res matches Ok(c) && {
                &&& c.uri@ == uri@
                &&& c.model@ == model@
                &&& c.guideline@ == guideline@
                &&& c.num_ctx == num_ctx
                &&& c.chat_user_message.role == OllamaChatMessageRole::User
                &&& c.chat_user_message.content@.len() == 0
                &&& c.chat_user_message.tool_name is None
                &&& c.chat_user_message.tool_calls is None
                &&& c.chat_history@.len() == 0
                &&& c.tools@.len() == 0
            }),
    {
        if env.theya_uri_set {
            return Err(
                TheyaError::bug(
                    "The use of THEYA_URI is deprecated, please use $HOME/.config/theya/config instead",
                ),
            );
        }
        if env.theya_model_set {
            return Err(
                TheyaError::bug(
                    "The use of THEYA_MODEL is deprecated, please use $HOME/.config/theya/config instead",
                ),
            );
        }
        Ok(
            OllamaClient {
                uri: String::from_str(uri),
                model: String::from_str(model),
                guideline: String::from_str(guideline),
                num_ctx,
                chat_user_message: OllamaChatMessage::plain(OllamaChatMessageRole::User, String::new()),
                chat_history: Vec::new(),
                tools: Vec::new(),
            },
        )
    }

    /// The URL that tells the server's version.
    pub fn version_url(&self) -> (r: String)
        ensures
            r@ == self.uri@ + "/api/version"@,
    {
        concat(self.uri.as_str(), "/api/version")
    }

    /// The URL of one-shot answers.
    pub fn generate_url(&self) -> (r: String)
        ensures
            r@ == self.uri@ + "/api/generate"@,
    {
        concat(self.uri.as_str(), "/api/generate")
    }

    /// The URL of chat turns.
    pub fn chat_url(&self) -> (r: String)
        ensures
            r@ == self.uri@ + "/api/chat"@,
    {
        concat(self.uri.as_str(), "/api/chat")
    }

    /// The request of a one-shot answer to `prompt`, under the system
    /// prompt, not streamed.
    pub fn generate_request(&self, prompt: String) -> (r: OllamaGenerate)
        ensures
            r.model == self.model,
            r.prompt == prompt,
            r.system == self.guideline,
            !r.stream,
            r.keep_alive@ == KEEPALIVE@,
            r.num_ctx == self.num_ctx,
    {
        OllamaGenerate {
            model: self.model.clone(),
            prompt,
            system: self.guideline.clone(),
            stream: false,
            keep_alive: String::from_str(KEEPALIVE),
            num_ctx: self.num_ctx,
        }
    }

    /// Sets the user's request that opens the conversation.
    pub fn set_user_message(&mut self, message: OllamaChatMessage)
        ensures
            *final(self) == (OllamaClient { chat_user_message: message, ..*old(self) }),
    {
        self.chat_user_message = message;
    }

    /// Forgets the history.
    pub fn reset_chat_history(&mut self)
        ensures
            final(self).chat_history@.len() == 0,
            history_only(*old(self), *final(self)),
    {
        self.chat_history = Vec::new();
    }

    /// Appends `message` to the history. The content of a write's reply is
    /// replaced by `<omitted>`; a read's reply that names a file supersedes
    /// the earlier reads of that file, whose content becomes `<omitted>`.
    pub fn add_chat_message(&mut self, message: OllamaChatMessage)
        ensures
            history_only(*old(self), *final(self)),
            appended_kept(old(self).chat_history@, final(self).chat_history@, message),
    {
        let ghost given = message;
        let mut message = message;
        if is_write_tool(&message.tool_name) {
            message.content = String::from_str("<omitted>");
        }
        proof {
            reveal_strlit("write_files");
            reveal_strlit("read_file");
            assert("write_files"@.len() != "read_file"@.len());
        }
        assert(message.tool_name == given.tool_name);
        assert(read_file_path(message) == read_file_path(given));
        let ghost before = self.chat_history@;
        let ghost path = read_file_path(message);
        match read_file_path_of(&message) {
            Some(p) => {
                let mut i: usize = 0;
                while i < self.chat_history.len()
                    invariant
                        0 <= i <= self.chat_history@.len(),
                        self.chat_history@.len() == before.len(),
                        history_only(*old(self), *self),
                        old(self).chat_history@ == before,
                        path == Some(p@),
                        forall|j: int|
                            0 <= j < i ==> superseded_as(before[j], #[trigger] self.chat_history@[j], path),
                        forall|j: int| i <= j < before.len() ==> #[trigger] self.chat_history@[j] == before[j],
                    decreases before.len() - i,
                {
                    let hit = match read_file_path_of(&self.chat_history[i]) {
                        Some(q) => q == p,
                        None => false,
                    };
                    if hit {
                        self.chat_history[i].content = String::from_str("<omitted>");
                    }
                    i += 1;
                }
            },
            None => {},
        }
        let ghost mid = self.chat_history@;
        self.chat_history.push(message);
        assert forall|j: int| 0 <= j < before.len() implies superseded_as(before[j], #[trigger] self.chat_history@[j], path) by {
            assert(self.chat_history@[j] == mid[j]);
        }
        assert(kept_as(given, self.chat_history@.last()));
    }

    /// Sets the tools that the model may call.
    pub fn set_tools(&mut self, tools: Vec<OllamaToolPrototype>)
        ensures
            *final(self) == (OllamaClient { tools: tools, ..*old(self) }),
    {
        self.tools = tools;
    }

    /// Whether a conversation whose messages have `json_len` bytes of JSON
    /// must be summarised first.
    pub fn needs_compression(json_len: usize) -> (r: bool)
        ensures
            r == (json_len > MAX_MSG_SIZE),
    {
        json_len > MAX_MSG_SIZE
    }

    fn request(&self, last: Option<OllamaChatMessage>) -> (r: OllamaChat<'_>)
        ensures
            r.model == self.model,
            r.system.role == OllamaChatMessageRole::System,
            r.system.content == self.guideline,
            r.system.tool_name is None,
            r.system.tool_calls is None,
            *r.user == self.chat_user_message,
            *r.history == self.chat_history,
            r.last == last,
            !r.stream,
            *r.tools == self.tools,
            r.keep_alive@ == KEEPALIVE@,
            r.num_ctx == self.num_ctx,
    {
        OllamaChat {
            model: self.model.clone(),
            system: OllamaChatMessage::plain(OllamaChatMessageRole::System, self.guideline.clone()),
            user: &self.chat_user_message,
            history: &self.chat_history,
            last,
            stream: false,
            tools: &self.tools,
            keep_alive: String::from_str(KEEPALIVE),
            num_ctx: self.num_ctx,
        }
    }

    /// The request of a chat turn: the conversation and the tools; after a
    /// summary (`after_summary`), then the request to continue.
    pub fn chat_request(&self, after_summary: bool) -> (r: OllamaChat<'_>)
        ensures
            r.model == self.model,
            r.system.role == OllamaChatMessageRole::System,
            r.system.content == self.guideline,
            r.system.tool_name is None,
            r.system.tool_calls is None,
            !r.stream,
            *r.user == self.chat_user_message,
            *r.history == self.chat_history,
            after_summary ==> (r.last matches Some(m) && m.role == OllamaChatMessageRole::User
                && m.content@ == spec_continue_request() && m.tool_name is None && m.tool_calls is None),
            !after_summary ==> r.last is None,
            *r.tools == self.tools,
            r.keep_alive@ == KEEPALIVE@,
            r.num_ctx == self.num_ctx,
    {
        if after_summary {
            self.request(
                Some(
                    OllamaChatMessage::plain(
                        OllamaChatMessageRole::User,
                        String::from_str(
                            "Please continue for next step if coding task is not finished",
                        ),
                    ),
                ),
            )
        } else {
            self.request(None)
        }
    }

    /// The request that asks for a summary of the conversation: the
    /// conversation and then the summary request.
    pub fn compress_request(&self) -> (r: OllamaChat<'_>)
        ensures
            r.model == self.model,
            r.system.role == OllamaChatMessageRole::System,
            r.system.content == self.guideline,
            r.system.tool_name is None,
            r.system.tool_calls is None,
            !r.stream,
            *r.user == self.chat_user_message,
            *r.history == self.chat_history,
            r.last matches Some(m) && m.role == OllamaChatMessageRole::User && m.content@
                == spec_summary_request() && m.tool_name is None && m.tool_calls is None,
            *r.tools == self.tools,
            r.keep_alive@ == KEEPALIVE@,
            r.num_ctx == self.num_ctx,
    {
        self.request(
            Some(
                OllamaChatMessage::plain(
                    OllamaChatMessageRole::User,
                    String::from_str(
                        "In order to increase performance, please make a summery the provides messages, this summery will be used to replace historical message for follow up actions",
                    ),
                ),
            ),
        )
    }

    /// Replaces the history by the summary in `reply`. A reply that reports
    /// an error is refused with that error, of kind `Bug`; a reply without
    /// message, with an error of kind `Bug` that quotes `reply_debug`, the
    /// reply as it was printed.
    pub fn apply_summary(&mut self, reply: OllamaChatResponse, reply_debug: &str) -> (res: Result<
        (),
        TheyaError,
    >)
        ensures
            history_only(*old(self), *final(self)),
            match reply.error {
                Some(err) => res matches Err(e) && e.kind == ErrorKind::Bug && e.msg == err
                    && final(self).chat_history == old(self).chat_history,
                None => match reply.message {
                    Some(m) => res is Ok && final(self).chat_history@ == seq![m],
                    None => res matches Err(e) && e.kind == ErrorKind::Bug && e.msg@
                        == "Got AI reply without message: "@ + reply_debug@
                        && final(self).chat_history == old(self).chat_history,
                },
            },
    {
        match reply.error {
            Some(err) => Err(TheyaError::new(ErrorKind::Bug, err)),
            None => match reply.message {
                Some(m) => {
                    let mut h: Vec<OllamaChatMessage> = Vec::new();
                    h.push(m);
                    self.chat_history = h;
                    Ok(())
                },
                None => Err(
                    TheyaError::new(
                        ErrorKind::Bug,
                        concat("Got AI reply without message: ", reply_debug),
                    ),
                ),
            },
        }
    }

    /// Takes in the reply of a chat turn: a reply that reports an error is
    /// refused with that error, of kind `Bug`; otherwise its message, when
    /// it has one, is added to the history (see [`Self::add_chat_message`]),
    /// and the result tells whether it had one.
    pub fn accept_reply(&mut self, reply: OllamaChatResponse) -> (res: Result<bool, TheyaError>)
        ensures
            history_only(*old(self), *final(self)),
            match reply.error {
                Some(err) => res matches Err(e) && e.kind == ErrorKind::Bug && e.msg == err
                    && final(self).chat_history == old(self).chat_history,
                None => match reply.message {
                    Some(m) => res == Ok::<bool, TheyaError>(true) && appended_kept(
                        old(self).chat_history@,
                        final(self).chat_history@,
                        m,
                    ),
                    None => res == Ok::<bool, TheyaError>(false) && final(self).chat_history
                        == old(self).chat_history,
                },
            },
    {
        match reply.error {
            Some(err) => Err(TheyaError::new(ErrorKind::Bug, err)),
            None => match reply.message {
                Some(m) => {
                    self.add_chat_message(m);
                    Ok(true)
                },
                None => Ok(false),
            },
        }
    }
}

/// A one-shot reply that reports an error is refused with that error, of
/// kind `Bug`; any other reply is accepted.
pub fn check_generate(reply: OllamaGenerateResponse) -> (res: Result<
    OllamaGenerateResponse,
    TheyaError,
>)
    ensures
        match reply.error {
            Some(err) => res matches Err(e) && e.kind == ErrorKind::Bug && e.msg == err,
            None => res matches Ok(r) && r == reply,
        },
{
    match &reply.error {
        Some(err) => Err(TheyaError::new(ErrorKind::Bug, err.clone())),
        None => Ok(reply),
    }
}

} // verus!
