//! The patch review session: the prompts, the tools, and the loop that
//! decides, reply by reply, whether to run tools or to stop.
use vstd::prelude::*;

use crate::ollama::{OllamaChatMessage, OllamaChatMessageRole, OllamaClient, OllamaToolPrototype};
use crate::tools::{
    gen_tool_prototypes_for_review, prototype_names, prototypes_of, schema_matches,
    spec_review_prototypes, spec_review_tool_set, ToolName,
};

verus! {

/// Size of the model's context, in tokens.
pub const CONTEXT_NUMBER: i32 = 10485760;

/// Most turns of one review.
pub const MAX_ITERATION: usize = 50;

/// The system prompt of a review.
pub open spec fn spec_system_prompt() -> Seq<char> {
    "You are a Linux software developer reviewing most recent git commit. You can only access single file each round in the seek of performance."@
}

/// The system prompt of a review.
pub fn system_prompt() -> (r: String)
    ensures
        r@ == spec_system_prompt(),
{
    String::from_str(
        "You are a Linux software developer reviewing most recent git commit. You can only access single file each round in the seek of performance.",
    )
}

/// The request that opens a review.
pub open spec fn spec_review_prompt() -> Seq<char> {
    "Please review most recent git commit and fix the code files when required, a good patch(git commit) should pass the compile, unit test and lint check."@
}

/// The names of a list of tools.
pub open spec fn tool_names(v: Seq<OllamaToolPrototype>) -> Seq<Seq<char>> {
    Seq::new(v.len(), |i: int| v[i].function.name@)
}

/// Whether `p` is the prototype of `t` as an Ollama server is offered
/// it: a function with the tool's name, description and parameters.
pub open spec fn ollama_prototype_of(p: OllamaToolPrototype, t: ToolName) -> bool {
    &&& p.kind@ == "function"@
    &&& p.function.name@ == t.spec_name()
    &&& p.function.description matches Some(d) && d@ == t.spec_description()
    &&& schema_matches(p.function.parameters, t)
}

/// The tools that a review offers: those of
/// [`crate::tools::gen_tool_prototypes_for_review`], in order.
pub fn review_tools() -> (r: Vec<OllamaToolPrototype>)
    ensures
        tool_names(r@) == spec_review_prototypes(),
        r@.len() == spec_review_tool_set().len(),
        forall|i: int|
            0 <= i < r@.len() ==> ollama_prototype_of(#[trigger] r@[i], spec_review_tool_set()[i]),
{
    let mut from = gen_tool_prototypes_for_review();
    let ghost orig = from@;
    let ghost set = spec_review_tool_set();
    let mut out: Vec<OllamaToolPrototype> = Vec::new();
    while from.len() > 0
        invariant
            prototypes_of(orig, set),
            prototype_names(orig) == spec_review_prototypes(),
            out@.len() + from@.len() == orig.len(),
            from@ == orig.skip(out@.len() as int),
            forall|i: int| 0 <= i < out@.len() ==> ollama_prototype_of(#[trigger] out@[i], set[i]),
            forall|i: int| 0 <= i < out@.len() ==> (#[trigger] out@[i]).function.name@ == orig[i].function.name@,
        decreases from.len(),
    {
        let ghost k = out@.len() as int;
        let p = from.remove(0);
        assert(p == orig[k]);
        assert(from@ =~= orig.skip(k + 1));
        out.push(OllamaToolPrototype::from_openai(p));
    }
    assert(tool_names(out@) =~= prototype_names(orig));
    out
}

/// What the review does next.
#[derive(Clone, Copy, Debug, PartialEq, Eq, Structural)]
pub enum ReviewAction {
    /// Send the conversation (see [`OllamaClient::accept_reply`]), and hand
    /// the message of the reply, now last in the history, to
    /// [`ReviewLoop::on_reply`].
    Chat,
    /// Answer each tool call of that message, add the answers to the
    /// conversation, then call [`ReviewLoop::on_tools_handled`].
    HandleTools,
    /// The review is over.
    Stop,
}

/// The loop of a review: the number of the turn.
#[derive(Debug)]
pub struct ReviewLoop {
    pub iteration: usize,
}

/// The loop moves from turn `i` to turn `j` and does `r`: the next turn
/// when there is one, else it stops where it was.
pub open spec fn advanced(i: usize, j: usize, r: ReviewAction) -> bool {
    if i + 1 < MAX_ITERATION {
        j == i + 1 && r == ReviewAction::Chat
    } else {
        j == i && r == ReviewAction::Stop
    }
}

/// Whether `m` calls tools.
pub open spec fn calls_tools(m: OllamaChatMessage) -> bool {
    m.tool_calls matches Some(v) && v@.len() > 0
}

impl ReviewLoop {
    /// Opens a review on `client`: the review request as the user's
    /// message, an empty history, the review tools; then the first turn.
    pub fn begin(client: &mut OllamaClient) -> (r: (ReviewLoop, ReviewAction))
        ensures
            r.0.iteration == 0,
            r.1 == ReviewAction::Chat,
            final(client).chat_user_message.role == OllamaChatMessageRole::User,
            final(client).chat_user_message.content@ == spec_review_prompt(),
            final(client).chat_user_message.tool_calls is None,
            final(client).chat_history@.len() == 0,
            tool_names(final(client).tools@) == spec_review_prototypes(),
            final(client).tools@.len() == spec_review_tool_set().len(),
            forall|i: int|
                0 <= i < final(client).tools@.len() ==> ollama_prototype_of(
                    #[trigger] final(client).tools@[i],
                    spec_review_tool_set()[i],
                ),
            final(client).uri == old(client).uri,
            final(client).model == old(client).model,
            final(client).guideline == old(client).guideline,
            final(client).num_ctx == old(client).num_ctx,
    {
        let prompt = String::from_str(
            "Please review most recent git commit and fix the code files when required, a good patch(git commit) should pass the compile, unit test and lint check.",
        );
        client.set_user_message(OllamaChatMessage::plain(OllamaChatMessageRole::User, prompt));
        client.reset_chat_history();
        client.set_tools(review_tools());
        (ReviewLoop { iteration: 0 }, ReviewAction::Chat)
    }

    fn advance(&mut self) -> (r: ReviewAction)
        ensures
            advanced(old(self).iteration, final(self).iteration, r),
    {
        if self.iteration < MAX_ITERATION - 1 {
            self.iteration = self.iteration + 1;
            ReviewAction::Chat
        } else {
            ReviewAction::Stop
        }
    }

    /// What the review does with the message of a reply (`None` when the
    /// reply had none): the next turn when there is none; the tool calls
    /// when it makes some; else the end.
    pub fn on_reply(&mut self, message: Option<&OllamaChatMessage>) -> (r: ReviewAction)
        ensures
            match message {
                None => advanced(old(self).iteration, final(self).iteration, r),
                Some(m) => final(self).iteration == old(self).iteration && if calls_tools(*m) {
                    r == ReviewAction::HandleTools
                } else {
                    r == ReviewAction::Stop
                },
            },
    {
        match message {
            None => self.advance(),
            Some(m) => {
                let calls = match &m.tool_calls {
                    Some(v) => v.len() > 0,
                    None => false,
                };
                if calls {
                    ReviewAction::HandleTools
                } else {
                    ReviewAction::Stop
                }
            },
        }
    }

    /// The step after the answers to the tool calls of a turn were added:
    /// the next turn, or the end.
    pub fn on_tools_handled(&mut self) -> (r: ReviewAction)
        ensures
            advanced(old(self).iteration, final(self).iteration, r),
    {
        self.advance()
    }
}

/// A review never runs more than [`MAX_ITERATION`] turns: each turn is one
/// more than the one before, and a turn that sends the conversation is
/// below the limit.
pub proof fn lemma_review_turns_bounded(i: usize, j: usize, r: ReviewAction)
    requires
        advanced(i, j, r),
    ensures
        r == ReviewAction::Chat ==> j < MAX_ITERATION && j == i + 1,
        r == ReviewAction::Stop ==> j == i && i + 1 >= MAX_ITERATION,
{
}

} // verus!
