//! The chat state of an OpenAI-compatible client: messages, tool calls,
//! replies, and the requests that the conversation sends.
use vstd::prelude::*;

use crate::error::{ErrorKind, TheyaError};
use crate::json::{parse_json, serde_json_parse, JsonValue};
use crate::text::{concat};

verus! {

/// Longest JSON text of the messages, in bytes, that is sent as it is; a
/// longer history is summarised first.
pub const MAX_MSG_SIZE: usize = 131072;

/// A JSON schema of tool parameters. `properties` keeps the property
/// schemas as (name, schema) pairs.
#[derive(Debug)]
pub struct JsonSchema {
    pub kind: Option<String>,
    pub items: Option<Box<JsonSchema>>,
    pub properties: Option<Vec<(String, JsonSchema)>>,
    pub required: Option<Vec<String>>,
    pub description: Option<String>,
}

impl JsonSchema {
    /// The empty schema.
    pub fn empty() -> (r: Self)
        ensures
            r.kind is None,
            r.items is None,
            r.properties is None,
            r.required is None,
            r.description is None,
    {
        JsonSchema { kind: None, items: None, properties: None, required: None, description: None }
    }
}

/// A function that the model may call.
#[derive(Debug)]
pub struct OpenAiFunctionPrototype {
    pub name: String,
    pub parameters: JsonSchema,
    pub description: Option<String>,
}

/// A tool that the model may call: a function, with its type.
#[derive(Debug)]
pub struct OpenAiToolPrototype {
    pub kind: String,
    pub function: OpenAiFunctionPrototype,
}

/// The type of every tool.
pub open spec fn spec_function_type() -> Seq<char> {
    "function"@
}

/// The type of every tool: `function`.
pub fn default_function_type() -> (r: String)
    ensures
        r@ == spec_function_type(),
{
    String::from_str("function")
}

impl OpenAiToolPrototype {
    /// The tool of type `function` that offers `function`.
    pub fn from_function(function: OpenAiFunctionPrototype) -> (r: Self)
        ensures
            r.kind@ == spec_function_type(),
            r.function == function,
    {
        OpenAiToolPrototype { kind: default_function_type(), function }
    }
}

/// Who wrote a message.
#[derive(Clone, Copy, Debug, PartialEq, Eq, Structural)]
pub enum OpenAiChatMessageRole {
    System,
    User,
    Assistant,
    Tool,
}

/// A tool call in an assistant message, its arguments as the JSON text that
/// the API sent.
#[derive(Debug)]
pub struct OpenAiApiToolCall {
    pub id: String,
    pub kind: String,
    pub function: OpenAiApiToolFunction,
}

/// The function and arguments of a tool call.
#[derive(Debug)]
pub struct OpenAiApiToolFunction {
    pub name: String,
    pub arguments: String,
}

/// A tool call with its arguments parsed.
#[derive(Debug)]
pub struct OpenAiTool {
    pub id: String,
    pub function: OpenAiFunction,
}

/// The function and parsed arguments of a tool call.
#[derive(Debug)]
pub struct OpenAiFunction {
    pub name: String,
    pub arguments: JsonValue,
}

impl OpenAiTool {
    /// The tool call `call` with the arguments `parsed` that its argument
    /// text parsed to, or an empty object when the text is not JSON.
    pub fn from_api_call(call: OpenAiApiToolCall, parsed: Option<JsonValue>) -> (r: Self)
        ensures
            r.id == call.id,
            r.function.name == call.function.name,
            match parsed {
                Some(v) => r.function.arguments == v,
                None => r.function.arguments matches JsonValue::Object(m) && m@.len() == 0,
            },
    {
        let arguments = match parsed {
            Some(v) => v,
            None => JsonValue::Object(Vec::new()),
        };
        OpenAiTool { id: call.id, function: OpenAiFunction { name: call.function.name, arguments } }
    }

    /// The tool call `call` with its argument text parsed by `serde_json`
    /// (see [`crate::json::parse_json`]), or an empty object when the text
    /// is not JSON. It always succeeds.
    pub fn try_from(call: OpenAiApiToolCall) -> (r: Result<Self, TheyaError>)
        ensures
            r matches Ok(t) && t.id == call.id && t.function.name == call.function.name && match serde_json_parse(
                call.function.arguments@,
            ) {
                Some(v) => t.function.arguments == v,
                None => t.function.arguments matches JsonValue::Object(m) && m@.len() == 0,
            },
    {
        let parsed = parse_json(call.function.arguments.as_str());
        Ok(Self::from_api_call(call, parsed))
    }
}

/// A message of the conversation.
#[derive(Debug)]
pub struct OpenAiChatMessage {
    pub role: OpenAiChatMessageRole,
    pub content: Option<String>,
    /// On the reply to a tool call.
    pub tool_call_id: Option<String>,
    /// On an assistant message that calls tools.
    pub tool_calls: Option<Vec<OpenAiApiToolCall>>,
    /// The reasoning that some models return, to be sent back as it came.
    pub reasoning_content: Option<String>,
}

/// What a tool call holds, as text: id, type, function name, arguments.
pub open spec fn tool_call_view(c: OpenAiApiToolCall) -> (Seq<char>, Seq<char>, Seq<char>, Seq<char>) {
    (c.id@, c.kind@, c.function.name@, c.function.arguments@)
}

/// The text of an optional string.
pub open spec fn opt_view(s: Option<String>) -> Option<Seq<char>> {
    match s {
        Some(v) => Some(v@),
        None => None,
    }
}

/// What a message holds, as plain values.
pub open spec fn message_view(m: OpenAiChatMessage) -> (
    OpenAiChatMessageRole,
    Option<Seq<char>>,
    Option<Seq<char>>,
    Option<Seq<(Seq<char>, Seq<char>, Seq<char>, Seq<char>)>>,
    Option<Seq<char>>,
) {
    (
        m.role,
        opt_view(m.content),
        opt_view(m.tool_call_id),
        match m.tool_calls {
            Some(v) => Some(Seq::new(v@.len(), |i: int| tool_call_view(v@[i]))),
            None => None,
        },
        opt_view(m.reasoning_content),
    )
}

/// The views of a list of messages.
pub open spec fn message_views(v: Seq<OpenAiChatMessage>) -> Seq<
    (
        OpenAiChatMessageRole,
        Option<Seq<char>>,
        Option<Seq<char>>,
        Option<Seq<(Seq<char>, Seq<char>, Seq<char>, Seq<char>)>>,
        Option<Seq<char>>,
    ),
> {
    Seq::new(v.len(), |i: int| message_view(v[i]))
}

/// A message of `role` with `content` and nothing else.
pub open spec fn plain_message_view(role: OpenAiChatMessageRole, content: Seq<char>) -> (
    OpenAiChatMessageRole,
    Option<Seq<char>>,
    Option<Seq<char>>,
    Option<Seq<(Seq<char>, Seq<char>, Seq<char>, Seq<char>)>>,
    Option<Seq<char>>,
) {
    (role, Some(content), None, None, None)
}

fn copy_opt(s: &Option<String>) -> (r: Option<String>)
    ensures
        r == *s,
{
    match s {
        Some(v) => Some(v.clone()),
        None => None,
    }
}

impl OpenAiApiToolCall {
    /// A copy of the call.
    pub fn copy(&self) -> (r: Self)
        ensures
            r == *self,
    {
        OpenAiApiToolCall {
            id: self.id.clone(),
            kind: self.kind.clone(),
            function: OpenAiApiToolFunction {
                name: self.function.name.clone(),
                arguments: self.function.arguments.clone(),
            },
        }
    }
}

impl OpenAiChatMessage {
    /// A message of `role` that holds `content` and nothing else.
    pub fn plain(role: OpenAiChatMessageRole, content: String) -> (r: Self)
        ensures
            message_view(r) == plain_message_view(role, content@),
    {
        OpenAiChatMessage {
            role,
            content: Some(content),
            tool_call_id: None,
            tool_calls: None,
            reasoning_content: None,
        }
    }

    /// The empty user message (the default message).
    pub fn empty() -> (r: Self)
        ensures
            message_view(r) == (
                OpenAiChatMessageRole::User,
                None::<Seq<char>>,
                None::<Seq<char>>,
                None::<Seq<(Seq<char>, Seq<char>, Seq<char>, Seq<char>)>>,
                None::<Seq<char>>,
            ),
    {
        OpenAiChatMessage {
            role: OpenAiChatMessageRole::User,
            content: None,
            tool_call_id: None,
            tool_calls: None,
            reasoning_content: None,
        }
    }

    /// A copy of the message.
    pub fn copy(&self) -> (r: Self)
        ensures
            message_view(r) == message_view(*self),
    {
        let tool_calls = match &self.tool_calls {
            Some(v) => {
                let mut out: Vec<OpenAiApiToolCall> = Vec::new();
                let mut i: usize = 0;
                while i < v.len()
                    invariant
                        0 <= i <= v.len(),
                        out@.len() == i,
                        forall|j: int| 0 <= j < i ==> out@[j] == v@[j],
                    decreases v.len() - i,
                {
                    out.push(v[i].copy());
                    i += 1;
                }
                assert(Seq::new(out@.len(), |i: int| tool_call_view(out@[i])) == Seq::new(
                    v@.len(),
                    |i: int| tool_call_view(v@[i]),
                ));
                Some(out)
            },
            None => None,
        };
        OpenAiChatMessage {
            role: self.role,
            content: copy_opt(&self.content),
            tool_call_id: copy_opt(&self.tool_call_id),
            tool_calls,
            reasoning_content: copy_opt(&self.reasoning_content),
        }
    }

    /// The reply to the tool call `tool_call_id`, holding `content`.
    pub fn tool_reply(tool_call_id: String, content: String) -> (r: Self)
        ensures
            message_view(r) == (
                OpenAiChatMessageRole::Tool,
                Some(content@),
                Some(tool_call_id@),
                None::<Seq<(Seq<char>, Seq<char>, Seq<char>, Seq<char>)>>,
                None::<Seq<char>>,
            ),
    {
        OpenAiChatMessage {
            role: OpenAiChatMessageRole::Tool,
            content: Some(content),
            tool_call_id: Some(tool_call_id),
            tool_calls: None,
            reasoning_content: None,
        }
    }
}

/// A choice of a reply.
#[derive(Debug)]
pub struct OpenAiChoice {
    pub index: usize,
    pub message: OpenAiChatMessage,
    pub finish_reason: Option<String>,
}

/// The error that a reply reports.
#[derive(Debug)]
pub struct OpenAiErrorDetail {
    pub message: String,
}

/// A reply of the chat completion API.
#[derive(Debug)]
pub struct OpenAiChatResponse {
    pub model: Option<String>,
    pub error: Option<OpenAiErrorDetail>,
    pub choices: Option<Vec<OpenAiChoice>>,
}

/// The message of the first choice of a reply, if there is one.
pub open spec fn spec_first_message(r: OpenAiChatResponse) -> Option<OpenAiChatMessage> {
    match r.choices {
        Some(c) => if c@.len() > 0 {
            Some(c@[0].message)
        } else {
            None
        },
        None => None,
    }
}

impl OpenAiChatResponse {
    /// The message of the first choice.
    pub fn message(&self) -> (res: Option<&OpenAiChatMessage>)
        ensures
            match res {
                Some(m) => spec_first_message(*self) == Some(*m),
                None => spec_first_message(*self) is None,
            },
    {
        match &self.choices {
            Some(c) => if c.len() > 0 {
                Some(&c[0].message)
            } else {
                None
            },
            None => None,
        }
    }

    /// Takes the message of the first choice out of the reply, leaving the
    /// empty message in its place.
    pub fn take_message(&mut self) -> (res: Option<OpenAiChatMessage>)
        ensures
            match spec_first_message(*old(self)) {
                Some(m) => (res matches Some(t) && message_view(t) == message_view(m)) && (final(self).choices matches Some(c) && c@.len() > 0 && message_view(c@[0].message)
                    == message_view(OpenAiChatMessage::spec_empty())
                    && (old(self).choices matches Some(c0) && c@[0].index == c0@[0].index
                    && c@[0].finish_reason == c0@[0].finish_reason)),
                None => res is None && final(self).choices == old(self).choices,
            },
            final(self).model == old(self).model,
            final(self).error == old(self).error,
            old(self).choices matches Some(c0) ==> (final(self).choices matches Some(c1) && c1@.len()
                == c0@.len() && forall|i: int| 1 <= i < c0@.len() ==> c1@[i] == c0@[i]),
    {
        match &mut self.choices {
            Some(c) => {
                if c.len() > 0 {
                    let taken = c[0].message.copy();
                    let index = c[0].index;
                    let finish = copy_opt(&c[0].finish_reason);
                    c.set(
                        0,
                        OpenAiChoice {
                            index,
                            message: OpenAiChatMessage::empty(),
                            finish_reason: finish,
                        },
                    );
                    Some(taken)
                } else {
                    None
                }
            },
            None => None,
        }
    }
}

impl OpenAiChatMessage {
    /// The empty user message.
    pub open spec fn spec_empty() -> OpenAiChatMessage {
        OpenAiChatMessage {
            role: OpenAiChatMessageRole::User,
            content: None,
            tool_call_id: None,
            tool_calls: None,
            reasoning_content: None,
        }
    }
}

/// A request of the chat completion API. Its `tools` are the client's.
#[derive(Debug)]
pub struct OpenAiChatRequest<'a> {
    pub model: String,
    pub messages: Vec<OpenAiChatMessage>,
    pub tools: Option<&'a Vec<OpenAiToolPrototype>>,
    pub max_tokens: Option<i32>,
}

/// What the environment says to a new client: whether the retired
/// variables `THEYA_URI` and `THEYA_MODEL` are set, and the value of
/// `OPENAI_API_KEY`.
#[derive(Debug)]
pub struct ClientEnv {
    pub theya_uri_set: bool,
    pub theya_model_set: bool,
    pub openai_api_key: Option<String>,
}

/// The text that `THEYA_URI` is refused with.
pub open spec fn spec_retired_uri_message() -> Seq<char> {
    "The use of THEYA_URI is deprecated, please use $HOME/.config/theya/config instead"@
}

/// The text that `THEYA_MODEL` is refused with.
pub open spec fn spec_retired_model_message() -> Seq<char> {
    "The use of THEYA_MODEL is deprecated, please use $HOME/.config/theya/config instead"@
}

/// A client of an OpenAI-compatible chat API: where it connects, with what
/// model and key, and the conversation so far.
#[derive(Debug)]
pub struct OpenAiClient {
    pub uri: String,
    pub model: String,
    pub guideline: String,
    pub api_key: String,
    /// Largest reply, in tokens.
    pub max_tokens: Option<i32>,
    pub chat_user_message: OpenAiChatMessage,
    pub chat_history: Vec<OpenAiChatMessage>,
    pub tools: Vec<OpenAiToolPrototype>,
}

/// The messages that a chat sends: the system prompt, the user's request,
/// and the history.
pub open spec fn spec_chat_messages(c: OpenAiClient) -> Seq<
    (
        OpenAiChatMessageRole,
        Option<Seq<char>>,
        Option<Seq<char>>,
        Option<Seq<(Seq<char>, Seq<char>, Seq<char>, Seq<char>)>>,
        Option<Seq<char>>,
    ),
> {
    seq![
        plain_message_view(OpenAiChatMessageRole::System, c.guideline@),
        message_view(c.chat_user_message),
    ] + message_views(c.chat_history@)
}

/// The request that asks the model to summarise the conversation.
pub open spec fn spec_summary_request() -> Seq<char> {
    "In order to increase performance, please make a summery the provides messages, this summery will be used to replace historical message for follow up actions"@
}

/// The request that resumes the work after a summary.
pub open spec fn spec_continue_request() -> Seq<char> {
    "Please continue for next step if coding task is not finished"@
}

impl OpenAiClient {
    /// A client of the API at `uri` with `model`, the system prompt
    /// `guideline`, and `api_key`, or the `OPENAI_API_KEY` of the
    /// environment when `api_key` is empty. The retired variables
    /// `THEYA_URI` and `THEYA_MODEL` are refused.
    pub fn new(
        uri: &str,
        model: &str,
        guideline: &str,
        api_key: &str,
        max_tokens: Option<i32>,
        env: ClientEnv,
    ) -> (res: Result<Self, TheyaError>)
        ensures
            env.theya_uri_set ==> (res matches Err(e) && e.kind == ErrorKind::Bug && e.msg@
                == spec_retired_uri_message()),
            !env.theya_uri_set && env.theya_model_set ==> (res matches Err(e) && e.kind
                == ErrorKind::Bug && e.msg@ == spec_retired_model_message()),
            !env.theya_uri_set && !env.theya_model_set ==> (res matches Ok(c) && {
                &&& c.uri@ == uri@
                &&& c.model@ == model@
                &&& c.guideline@ == guideline@
                &&& c.api_key@ == (if api_key@.len() > 0 {
                    api_key@
                } else {
                    match env.openai_api_key {
                        Some(k) => k@,
                        None => Seq::<char>::empty(),
                    }
                })
                &&& c.max_tokens == max_tokens
                &&& message_view(c.chat_user_message) == message_view(
                    OpenAiChatMessage::spec_empty(),
                )
                &&& c.chat_history@.len() == 0
                &&& c.tools@.len() == 0
            }),
    {
        if env.theya_uri_set {
            return Err(
                TheyaError::bug(
                    "The use of THEYA_URI is deprecated, please use $HOME/.config/theya/config instead",
                ),
            );
        }
        if env.theya_model_set {
            return Err(
                TheyaError::bug(
                    "The use of THEYA_MODEL is deprecated, please use $HOME/.config/theya/config instead",
                ),
            );
        }
        let key = if api_key.is_empty() {
            match env.openai_api_key {
                Some(k) => k,
                None => String::new(),
            }
        } else {
            String::from_str(api_key)
        };
        Ok(
            OpenAiClient {
                uri: String::from_str(uri),
                model: String::from_str(model),
                guideline: String::from_str(guideline),
                api_key: key,
                max_tokens,
                chat_user_message: OpenAiChatMessage::empty(),
                chat_history: Vec::new(),
                tools: Vec::new(),
            },
        )
    }

    /// The value of the `Authorization` header: `Bearer <key>`.
    pub fn auth_header(&self) -> (r: String)
        ensures
            r@ == "Bearer "@ + self.api_key@,
    {
        concat("Bearer ", self.api_key.as_str())
    }

    /// The URL of the chat completion endpoint.
    pub fn chat_url(&self) -> (r: String)
        ensures
            r@ == self.uri@ + "/v1/chat/completions"@,
    {
        concat(self.uri.as_str(), "/v1/chat/completions")
    }

    /// Sets the user's request that opens the conversation.
    pub fn set_user_message(&mut self, message: OpenAiChatMessage)
        ensures
            *final(self) == (OpenAiClient { chat_user_message: message, ..*old(self) }),
    {
        self.chat_user_message = message;
    }

    /// Forgets the history.
    pub fn reset_chat_history(&mut self)
        ensures
            final(self).chat_history@.len() == 0,
            *final(self) == (OpenAiClient { chat_history: final(self).chat_history, ..*old(self) }),
    {
        self.chat_history = Vec::new();
    }

    /// Appends `message` to the history.
    pub fn add_chat_message(&mut self, message: OpenAiChatMessage)
        ensures
            final(self).chat_history@ == old(self).chat_history@.push(message),
            *final(self) == (OpenAiClient { chat_history: final(self).chat_history, ..*old(self) }),
    {
        self.chat_history.push(message);
    }

    /// Sets the tools that the model may call.
    pub fn set_tools(&mut self, tools: Vec<OpenAiToolPrototype>)
        ensures
            *final(self) == (OpenAiClient { tools: tools, ..*old(self) }),
    {
        self.tools = tools;
    }

    /// The messages that a chat sends: system prompt, user's request,
    /// history.
    pub fn get_messages(&self) -> (r: Vec<OpenAiChatMessage>)
        ensures
            message_views(r@) == spec_chat_messages(*self),
    {
        let mut messages: Vec<OpenAiChatMessage> = Vec::new();
        messages.push(
            OpenAiChatMessage::plain(OpenAiChatMessageRole::System, self.guideline.clone()),
        );
        messages.push(self.chat_user_message.copy());
        let ghost head = message_views(messages@);
        let mut i: usize = 0;
        while i < self.chat_history.len()
            invariant
                0 <= i <= self.chat_history.len(),
                head == seq![
                    plain_message_view(OpenAiChatMessageRole::System, self.guideline@),
                    message_view(self.chat_user_message),
                ],
                message_views(messages@) == head + message_views(self.chat_history@.take(i as int)),
            decreases self.chat_history.len() - i,
        {
            let ghost before = message_views(messages@);
            messages.push(self.chat_history[i].copy());
            assert(message_views(messages@) == before.push(message_view(self.chat_history@[i as int])));
            assert(message_views(self.chat_history@.take(i + 1)) == message_views(
                self.chat_history@.take(i as int),
            ).push(message_view(self.chat_history@[i as int])));
            i += 1;
        }
        assert(self.chat_history@.take(self.chat_history.len() as int) == self.chat_history@);
        messages
    }

    /// Whether a conversation whose messages have `json_len` bytes of JSON
    /// must be summarised first.
    pub fn needs_compression(json_len: usize) -> (r: bool)
        ensures
            r == (json_len > MAX_MSG_SIZE),
    {
        json_len > MAX_MSG_SIZE
    }

    /// The request of a chat turn: the messages of [`Self::get_messages`],
    /// the tools, and the token limit.
    pub fn chat_request(&self) -> (r: OpenAiChatRequest<'_>)
        ensures
            message_views(r.messages@) == spec_chat_messages(*self),
            r.model == self.model,
            r.tools == Some(&self.tools),
            r.max_tokens == self.max_tokens,
    {
        OpenAiChatRequest {
            model: self.model.clone(),
            messages: self.get_messages(),
            tools: Some(&self.tools),
            max_tokens: self.max_tokens,
        }
    }

    /// The request that asks for a summary of the conversation: the
    /// messages of a chat turn and then the summary request.
    pub fn compress_request(&self) -> (r: OpenAiChatRequest<'_>)
        ensures
            message_views(r.messages@) == spec_chat_messages(*self).push(
                plain_message_view(OpenAiChatMessageRole::User, spec_summary_request()),
            ),
            r.model == self.model,
            r.tools == Some(&self.tools),
            r.max_tokens == self.max_tokens,
    {
        let mut messages = self.get_messages();
        messages.push(
            OpenAiChatMessage::plain(
                OpenAiChatMessageRole::User,
                String::from_str(
                    "In order to increase performance, please make a summery the provides messages, this summery will be used to replace historical message for follow up actions",
                ),
            ),
        );
        OpenAiChatRequest {
            model: self.model.clone(),
            messages,
            tools: Some(&self.tools),
            max_tokens: self.max_tokens,
        }
    }

    /// Replaces the history by the summary in `reply`; an error of kind
    /// `Bug` when the reply holds no message.
    pub fn apply_summary(&mut self, reply: &mut OpenAiChatResponse) -> (res: Result<
        (),
        TheyaError,
    >)
        ensures
            match spec_first_message(*old(reply)) {
                Some(m) => res is Ok && final(self).chat_history@.len() == 1 && message_view(
                    final(self).chat_history@[0],
                ) == message_view(m),
                None => res matches Err(e) && e.kind == ErrorKind::Bug && e.msg@
                    == "Got AI reply without message"@ && final(self).chat_history
                    == old(self).chat_history,
            },
            *final(self) == (OpenAiClient { chat_history: final(self).chat_history, ..*old(self) }),
    {
        match reply.take_message() {
            Some(message) => {
                self.chat_history = Vec::new();
                self.chat_history.push(message);
                Ok(())
            },
            None => Err(TheyaError::bug("Got AI reply without message")),
        }
    }

    /// The request of a chat turn after a summary: the messages of a chat
    /// turn and then the request to continue.
    pub fn continue_request(&self) -> (r: OpenAiChatRequest<'_>)
        ensures
            message_views(r.messages@) == spec_chat_messages(*self).push(
                plain_message_view(OpenAiChatMessageRole::User, spec_continue_request()),
            ),
            r.model == self.model,
            r.tools == Some(&self.tools),
            r.max_tokens == self.max_tokens,
    {
        let mut messages = self.get_messages();
        messages.push(
            OpenAiChatMessage::plain(
                OpenAiChatMessageRole::User,
                String::from_str("Please continue for next step if coding task is not finished"),
            ),
        );
        OpenAiChatRequest {
            model: self.model.clone(),
            messages,
            tools: Some(&self.tools),
            max_tokens: self.max_tokens,
        }
    }

    /// Keeps the reply's first message in the history, when it has one.
    pub fn record_reply(&mut self, reply: &OpenAiChatResponse)
        ensures
            match spec_first_message(*reply) {
                Some(m) => final(self).chat_history@.len() == old(self).chat_history@.len() + 1
                    && final(self).chat_history@.take(old(self).chat_history@.len() as int)
                    == old(self).chat_history@ && message_view(
                    final(self).chat_history@.last(),
                ) == message_view(m),
                None => final(self).chat_history == old(self).chat_history,
            },
            *final(self) == (OpenAiClient { chat_history: final(self).chat_history, ..*old(self) }),
    {
        match reply.message() {
            Some(m) => {
                let c = m.copy();
                let ghost before = self.chat_history@;
                self.chat_history.push(c);
                assert(self.chat_history@.take(before.len() as int) == before);
            },
            None => {},
        }
    }

    /// The request of a one-shot answer: the system prompt, then `prompt`
    /// as the user's message, without tools.
    pub fn generate_request(&self, prompt: String) -> (r: OpenAiChatRequest<'_>)
        ensures
            message_views(r.messages@) == seq![
                plain_message_view(OpenAiChatMessageRole::System, self.guideline@),
                plain_message_view(OpenAiChatMessageRole::User, prompt@),
            ],
            r.model == self.model,
            r.tools is None,
            r.max_tokens == self.max_tokens,
    {
        let mut messages: Vec<OpenAiChatMessage> = Vec::new();
        messages.push(
            OpenAiChatMessage::plain(OpenAiChatMessageRole::System, self.guideline.clone()),
        );
        messages.push(OpenAiChatMessage::plain(OpenAiChatMessageRole::User, prompt));
        OpenAiChatRequest {
            model: self.model.clone(),
            messages,
            tools: None,
            max_tokens: self.max_tokens,
        }
    }
}

/// A reply that reports an error is refused with that error's message, of
/// kind `Bug`; any other reply is accepted.
pub fn check_reply(reply: OpenAiChatResponse) -> (res: Result<OpenAiChatResponse, TheyaError>)
    ensures
        match reply.error {
            Some(d) => res matches Err(e) && e.kind == ErrorKind::Bug && e.msg == d.message,
            None => res matches Ok(r) && r == reply,
        },
{
    match &reply.error {
        Some(d) => Err(TheyaError::new(ErrorKind::Bug, d.message.clone())),
        None => Ok(reply),
    }
}

/// The answer text of a one-shot reply: the content of its first message,
/// or the empty text.
pub fn response_text(reply: &mut OpenAiChatResponse) -> (r: String)
    ensures
        r@ == match spec_first_message(*old(reply)) {
            Some(m) => match m.content {
                Some(c) => c@,
                None => Seq::<char>::empty(),
            },
            None => Seq::<char>::empty(),
        },
{
    match reply.take_message() {
        Some(m) => match m.content {
            Some(c) => c,
            None => String::new(),
        },
        None => String::new(),
    }
}

} // verus!
