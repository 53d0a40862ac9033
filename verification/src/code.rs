//! The coding session: the request that the user writes, the prompt that
//! opens the conversation, and the loop that decides, reply by reply,
//! whether to run tools, to ask whether the task is done, to start again
//! or to stop.
use vstd::prelude::*;

use crate::editor::{editor_text, spec_user_text, COMMENT_POSTFIX, COMMENT_PREFIX};
use crate::error::{ErrorKind, TheyaError};
use crate::openai::{
    message_view, plain_message_view, OpenAiApiToolCall, OpenAiChatMessage, OpenAiChatMessageRole,
    OpenAiClient,
};
use crate::text::{concat3, contains, occurs_at, spec_contains};
use crate::tools::{prototype_names, prototypes_of, spec_code_tool_set, spec_code_tools, TheyaTools};

verus! {

/// Most turns of work in one session.
pub const MAX_ITERATION: usize = 1000;

/// The file in which the user writes the coding task.
pub const CODE_TASK_FILE: &'static str = "/tmp/theya_code_task.md";

/// What the task file holds before the user writes in it.
pub open spec fn spec_task_template() -> Seq<char> {
    "\n\n"@ + COMMENT_PREFIX@ + "Please type your request above, save and quit"@ + COMMENT_POSTFIX@
        + "\n"@
}

/// What the task file holds before the user writes in it: two empty lines
/// and a program line that asks for the request.
pub fn task_template() -> (r: String)
    ensures
        r@ == spec_task_template(),
{
    let mut r = concat3("\n\n", COMMENT_PREFIX, "Please type your request above, save and quit");
    r.append(COMMENT_POSTFIX);
    r.append("\n");
    r
}

/// The message of an empty task.
pub open spec fn spec_empty_task_message() -> Seq<char> {
    "Got empty input, quitting"@
}

/// The coding task in the edited task file `raw`: the user's text, or an
/// error of kind `EmptyInput` when there is none.
pub fn coding_task(raw: &str) -> (res: Result<String, TheyaError>)
    ensures
        spec_user_text(raw@, COMMENT_PREFIX@).len() > 0 ==> (res matches Ok(t) && t@
            == spec_user_text(raw@, COMMENT_PREFIX@)),
        spec_user_text(raw@, COMMENT_PREFIX@).len() == 0 ==> (res matches Err(e) && e.kind
            == ErrorKind::EmptyInput && e.msg@ == spec_empty_task_message()),
{
    let task = editor_text(raw);
    if task.as_str().is_empty() {
        Err(TheyaError::new(ErrorKind::EmptyInput, String::from_str("Got empty input, quitting")))
    } else {
        Ok(task)
    }
}

/// The request that opens a coding session for `task`.
pub open spec fn spec_code_prompt(task: Seq<char>) -> Seq<char> {
    "You been requested to modify files in current git repo for coding task:\n```\n"@ + task
        + "\n```\n\nRecommendations:\n1. A good patch should pass compiling, unit test and link check.\n2. Only create git commit after you consider current changes is a good patch for specified coding task."@
}

/// The request that opens a coding session for `task`: the task quoted,
/// and what makes a good patch.
pub fn code_prompt(task: &str) -> (r: String)
    ensures
        r@ == spec_code_prompt(task@),
{
    concat3(
        "You been requested to modify files in current git repo for coding task:\n```\n",
        task,
        "\n```\n\nRecommendations:\n1. A good patch should pass compiling, unit test and link check.\n2. Only create git commit after you consider current changes is a good patch for specified coding task.",
    )
}

/// The question that asks whether the task is done.
pub open spec fn spec_done_question() -> Seq<char> {
    "Do not modify any code, just check whether original coding task is finished or not, reply YES if done, otherwise provide action plan"@
}

/// Whether an answer to the done question says that the task is done: it
/// holds `YES` or `yes`.
pub open spec fn spec_says_done(content: Option<String>) -> bool {
    let c = match content {
        Some(s) => s@,
        None => Seq::<char>::empty(),
    };
    spec_contains(c, "YES"@) || spec_contains(c, "yes"@)
}

/// Whether an answer to the done question says that the task is done.
pub fn says_done(content: &Option<String>) -> (r: bool)
    ensures
        r == spec_says_done(*content),
{
    match content {
        Some(c) => {
            let upper = contains(c.as_str(), "YES");
            let lower = contains(c.as_str(), "yes");
            upper || lower
        },
        None => {
            proof {
                reveal_strlit("");
            }
            let upper = contains("", "YES");
            let lower = contains("", "yes");
            assert(""@ == Seq::<char>::empty());
            assert(upper == spec_contains(Seq::<char>::empty(), "YES"@));
            upper || lower
        },
    }
}

/// Why the conversation is sent.
#[derive(Clone, Copy, Debug, PartialEq, Eq, Structural)]
pub enum ChatPurpose {
    /// To let the model work.
    Work,
    /// To ask whether the task is done.
    Check,
}

/// What the session does next.
#[derive(Debug)]
pub enum CodeAction {
    /// Send the conversation, and hand the message of the reply to
    /// [`CodeLoop::on_reply`] with this purpose.
    Chat(ChatPurpose),
    /// Answer each of these tool calls (see [`crate::tool_call`]), add the
    /// answers to the conversation, then call [`CodeLoop::on_tools_handled`].
    HandleTools(Vec<OpenAiApiToolCall>),
    /// The session is over.
    Stop,
}

/// The loop of a coding session: the number of the turn of work.
#[derive(Debug)]
pub struct CodeLoop {
    pub iteration: usize,
}

/// Whether `m` calls tools.
pub open spec fn calls_tools(m: OpenAiChatMessage) -> bool {
    m.tool_calls matches Some(v) && v@.len() > 0
}

/// The loop moves from turn `i` to turn `j` and does `r`: the next turn's
/// work when there is one, else it stops where it was.
pub open spec fn advanced(i: usize, j: usize, r: CodeAction) -> bool {
    if i + 1 < MAX_ITERATION {
        j == i + 1 && r == CodeAction::Chat(ChatPurpose::Work)
    } else {
        j == i && r == CodeAction::Stop
    }
}

/// `new` is `old` with nothing but its history changed.
pub open spec fn history_only(old_c: OpenAiClient, new_c: OpenAiClient) -> bool {
    new_c == (OpenAiClient { chat_history: new_c.chat_history, ..old_c })
}

/// `new` is `old` with the done question added to its history.
pub open spec fn asked_done(old_c: OpenAiClient, new_c: OpenAiClient) -> bool {
    &&& history_only(old_c, new_c)
    &&& new_c.chat_history@.len() == old_c.chat_history@.len() + 1
    &&& new_c.chat_history@.take(old_c.chat_history@.len() as int) == old_c.chat_history@
    &&& message_view(new_c.chat_history@.last()) == plain_message_view(
        OpenAiChatMessageRole::User,
        spec_done_question(),
    )
}

/// What the loop does with the reply to a chat of purpose `purpose` (the
/// reply's message, or the error of the request), from turn `i` to turn
/// `j`, the client going from `c0` to `c1`.
pub open spec fn spec_on_reply(
    purpose: ChatPurpose,
    reply: Result<Option<OpenAiChatMessage>, TheyaError>,
    i: usize,
    j: usize,
    c0: OpenAiClient,
    c1: OpenAiClient,
    r: CodeAction,
) -> bool {
    match reply {
        Err(e) => if e.spec_can_retry() {
            history_only(c0, c1) && c1.chat_history@.len() == 0 && advanced(i, j, r)
        } else {
            c1 == c0 && j == i && r == CodeAction::Stop
        },
        Ok(None) => c1 == c0 && advanced(i, j, r),
        Ok(Some(m)) => match purpose {
            ChatPurpose::Work => if calls_tools(m) {
                c1 == c0 && j == i && r == CodeAction::HandleTools(m.tool_calls->0)
            } else {
                asked_done(c0, c1) && j == i && r == CodeAction::Chat(ChatPurpose::Check)
            },
            ChatPurpose::Check => if spec_says_done(m.content) {
                c1 == c0 && j == i && r == CodeAction::Stop
            } else {
                history_only(c0, c1) && c1.chat_history@ == c0.chat_history@.push(m) && advanced(
                    i,
                    j,
                    r,
                )
            },
        },
    }
}

impl CodeLoop {
    /// Opens a coding session for `task` on `client`: the request of
    /// [`code_prompt`] as the user's message, an empty history, the tools of
    /// [`TheyaTools::code`]; then the first turn of work.
    pub fn begin(client: &mut OpenAiClient, task: &str) -> (r: (CodeLoop, CodeAction))
        ensures
            r.0.iteration == 0,
            r.1 == CodeAction::Chat(ChatPurpose::Work),
            message_view(final(client).chat_user_message) == plain_message_view(
                OpenAiChatMessageRole::User,
                spec_code_prompt(task@),
            ),
            final(client).chat_history@.len() == 0,
            prototype_names(final(client).tools@) == spec_code_tools(),
            prototypes_of(final(client).tools@, spec_code_tool_set()),
            final(client).uri == old(client).uri,
            final(client).model == old(client).model,
            final(client).guideline == old(client).guideline,
            final(client).api_key == old(client).api_key,
            final(client).max_tokens == old(client).max_tokens,
    {
        let prompt = code_prompt(task);
        client.set_user_message(OpenAiChatMessage::plain(OpenAiChatMessageRole::User, prompt));
        client.reset_chat_history();
        client.set_tools(TheyaTools::code());
        (CodeLoop { iteration: 0 }, CodeAction::Chat(ChatPurpose::Work))
    }

    fn advance(&mut self) -> (r: CodeAction)
        ensures
            advanced(old(self).iteration, final(self).iteration, r),
    {
        if self.iteration < MAX_ITERATION - 1 {
            self.iteration = self.iteration + 1;
            CodeAction::Chat(ChatPurpose::Work)
        } else {
            CodeAction::Stop
        }
    }

    /// What the session does with the reply to a chat of purpose
    /// `purpose`: the reply's message, or the error of the request (see
    /// [`spec_on_reply`]).
    pub fn on_reply(
        &mut self,
        client: &mut OpenAiClient,
        purpose: ChatPurpose,
        reply: Result<Option<OpenAiChatMessage>, TheyaError>,
    ) -> (r: CodeAction)
        ensures
            spec_on_reply(
                purpose,
                reply,
                old(self).iteration,
                final(self).iteration,
                *old(client),
                *final(client),
                r,
            ),
    {
        match reply {
            Err(e) => if e.can_retry() {
                client.reset_chat_history();
                self.advance()
            } else {
                CodeAction::Stop
            },
            Ok(None) => self.advance(),
            Ok(Some(m)) => match purpose {
                ChatPurpose::Work => {
                    let has_tools = match &m.tool_calls {
                        Some(v) => v.len() > 0,
                        None => false,
                    };
                    if has_tools {
                        match m.tool_calls {
                            Some(v) => CodeAction::HandleTools(v),
                            None => CodeAction::Stop,
                        }
                    } else {
                        let question = OpenAiChatMessage::plain(
                            OpenAiChatMessageRole::User,
                            String::from_str(
                                "Do not modify any code, just check whether original coding task is finished or not, reply YES if done, otherwise provide action plan",
                            ),
                        );
                        let ghost before = client.chat_history@;
                        client.add_chat_message(question);
                        assert(client.chat_history@.take(before.len() as int) == before);
                        CodeAction::Chat(ChatPurpose::Check)
                    }
                },
                ChatPurpose::Check => if says_done(&m.content) {
                    CodeAction::Stop
                } else {
                    client.add_chat_message(m);
                    self.advance()
                },
            },
        }
    }

    /// The step after the answers to the tool calls of a turn were added:
    /// the next turn of work, or the end.
    pub fn on_tools_handled(&mut self) -> (r: CodeAction)
        ensures
            advanced(old(self).iteration, final(self).iteration, r),
    {
        self.advance()
    }
}

/// A session never works for more than [`MAX_ITERATION`] turns: the turn
/// that a chat of work runs in is below the limit, and each turn is one
/// more than the one before.
pub proof fn lemma_turns_bounded(i: usize, j: usize, r: CodeAction)
    requires
        advanced(i, j, r),
    ensures
        r is Chat ==> j < MAX_ITERATION && j == i + 1,
        r is Stop ==> j == i && i + 1 >= MAX_ITERATION,
{
}

/// A session ends when the model says that the task is done, and keeps
/// the conversation as it was.
pub proof fn lemma_done_stops(
    m: OpenAiChatMessage,
    i: usize,
    j: usize,
    c0: OpenAiClient,
    c1: OpenAiClient,
    r: CodeAction,
)
    requires
        spec_on_reply(ChatPurpose::Check, Ok(Some(m)), i, j, c0, c1, r),
        spec_says_done(m.content),
    ensures
        r == CodeAction::Stop,
        c1 == c0,
        j == i,
{
}

/// A check reply that holds `YES` or `yes` anywhere (at position `k`)
/// ends the session, whatever comes before or after it, and keeps the
/// conversation as it was.
pub proof fn lemma_yes_anywhere_stops(
    m: OpenAiChatMessage,
    k: int,
    i: usize,
    j: usize,
    c0: OpenAiClient,
    c1: OpenAiClient,
    r: CodeAction,
)
    requires
        spec_on_reply(ChatPurpose::Check, Ok(Some(m)), i, j, c0, c1, r),
        m.content matches Some(c) && 0 <= k && k + 3 <= c@.len() && (c@.subrange(k, k + 3)
            == seq!['Y', 'E', 'S'] || c@.subrange(k, k + 3) == seq!['y', 'e', 's']),
    ensures
        r == CodeAction::Stop,
        c1 == c0,
        j == i,
{
    reveal_strlit("YES");
    reveal_strlit("yes");
    let c = m.content->0@;
    assert("YES"@ == seq!['Y', 'E', 'S']);
    assert("yes"@ == seq!['y', 'e', 's']);
    if c.subrange(k, k + 3) == seq!['Y', 'E', 'S'] {
        assert(occurs_at(c, "YES"@, k));
    } else {
        assert(occurs_at(c, "yes"@, k));
    }
}

/// A check reply in which neither `YES` nor `yes` occurs anywhere does not
/// end the session as done: the reply joins the history and the session
/// goes on with the next turn, or ends only at the turn limit.
pub proof fn lemma_no_yes_goes_on(
    m: OpenAiChatMessage,
    i: usize,
    j: usize,
    c0: OpenAiClient,
    c1: OpenAiClient,
    r: CodeAction,
)
    requires
        spec_on_reply(ChatPurpose::Check, Ok(Some(m)), i, j, c0, c1, r),
        forall|k: int|
            #![trigger m.content->0@.subrange(k, k + 3)]
            0 <= k && m.content is Some && k + 3 <= m.content->0@.len() ==> m.content->0@.subrange(
                k,
                k + 3,
            ) != seq!['Y', 'E', 'S'] && m.content->0@.subrange(k, k + 3) != seq!['y', 'e', 's'],
    ensures
        c1.chat_history@ == c0.chat_history@.push(m),
        r is Chat ==> j == i + 1 && j < MAX_ITERATION,
        r is Stop ==> i + 1 >= MAX_ITERATION,
{
    reveal_strlit("YES");
    reveal_strlit("yes");
    reveal_strlit("");
    assert("YES"@ == seq!['Y', 'E', 'S']);
    assert("yes"@ == seq!['y', 'e', 's']);
    let c = match m.content {
        Some(s) => s@,
        None => Seq::<char>::empty(),
    };
    assert forall|k: int| !occurs_at(c, "YES"@, k) && !occurs_at(c, "yes"@, k) by {
        if m.content is Some && 0 <= k && k + 3 <= c.len() {
            assert(c.subrange(k, k + 3) == m.content->0@.subrange(k, k + 3));
        }
    }
    assert(!spec_says_done(m.content));
}

} // verus!
