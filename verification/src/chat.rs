//! The chat session: which endpoint and prompt a quick or a slow chat
//! uses, the question file that the user edits, the question that is sent,
//! and the answer file that the user reads.
use vstd::prelude::*;

use crate::config::TheyaConfig;
use crate::editor::{editor_text, spec_user_text, COMMENT_POSTFIX, COMMENT_PREFIX};
use crate::error::{ErrorKind, TheyaError};
use crate::text::{
    concat, concat3, is_whitespace, join, lemma_trim_end_shape, lines, spec_join, spec_lines, trim_end,
    trim_end_str, views,
};

verus! {

/// The system prompt of a quick chat.
pub open spec fn spec_quick_system_prompt() -> Seq<char> {
    "You are a Minimalism Linux Software developer providing coding assistance.\nGuidelines:\n1. Answer with minimum content.\n2. Only include single recommendation.\n"@
}

/// The system prompt of a slow chat.
pub open spec fn spec_slow_system_prompt() -> Seq<char> {
    "You are a experienced Linux Software developer providing coding assistance.\nGuidelines:\n1. Only include single recommendation.\n"@
}

/// How a chat connects: its system prompt, endpoint, model, key and reply
/// limit.
#[derive(Debug)]
pub struct ChatSettings {
    pub system_prompt: String,
    pub uri: String,
    pub model: String,
    pub api_key: String,
    pub max_tokens: Option<i32>,
}

/// The settings of a slow chat (`slow`) or a quick one under `config`:
/// the section `[slow-chat]` or `[quick-chat]`, and the matching system
/// prompt.
pub fn chat_settings(config: &TheyaConfig, slow: bool) -> (r: ChatSettings)
    ensures
        slow ==> r.system_prompt@ == spec_slow_system_prompt() && r.uri@ == config.slow_chat.uri@
            && r.model@ == config.slow_chat.model@ && r.api_key@ == config.slow_chat.api_key@
            && r.max_tokens == config.slow_chat.max_tokens,
        !slow ==> r.system_prompt@ == spec_quick_system_prompt() && r.uri@
            == config.quick_chat.uri@ && r.model@ == config.quick_chat.model@ && r.api_key@
            == config.quick_chat.api_key@ && r.max_tokens == Some(config.quick_chat.max_tokens),
{
    if slow {
        ChatSettings {
            system_prompt: String::from_str(
                "You are a experienced Linux Software developer providing coding assistance.\nGuidelines:\n1. Only include single recommendation.\n",
            ),
            uri: config.slow_chat.uri.clone(),
            model: config.slow_chat.model.clone(),
            api_key: config.slow_chat.api_key.clone(),
            max_tokens: config.slow_chat.max_tokens,
        }
    } else {
        ChatSettings {
            system_prompt: String::from_str(
                "You are a Minimalism Linux Software developer providing coding assistance.\nGuidelines:\n1. Answer with minimum content.\n2. Only include single recommendation.\n",
            ),
            uri: config.quick_chat.uri.clone(),
            model: config.quick_chat.model.clone(),
            api_key: config.quick_chat.api_key.clone(),
            max_tokens: Some(config.quick_chat.max_tokens),
        }
    }
}

/// What the question file holds before the user writes in it: two empty
/// lines, then program lines that name the endpoint and the model and ask
/// for the question.
pub open spec fn spec_question_template(uri: Seq<char>, model: Seq<char>) -> Seq<char> {
    "\n\n"@ + COMMENT_PREFIX@ + "OpenAI API connected to: "@ + uri + COMMENT_POSTFIX@ + "\n"@
        + COMMENT_PREFIX@ + "Model: "@ + model + COMMENT_POSTFIX@ + "\n"@ + COMMENT_PREFIX@
        + "Please type your questions above, save and quit"@ + COMMENT_POSTFIX@ + "\n"@
}

/// What the question file holds before the user writes in it (see
/// [`spec_question_template`]).
pub fn question_template(uri: &str, model: &str) -> (r: String)
    ensures
        r@ == spec_question_template(uri@, model@),
{
    let mut r = concat3("\n\n", COMMENT_PREFIX, "OpenAI API connected to: ");
    r.append(uri);
    r.append(COMMENT_POSTFIX);
    r.append("\n");
    r.append(COMMENT_PREFIX);
    r.append("Model: ");
    r.append(model);
    r.append(COMMENT_POSTFIX);
    r.append("\n");
    r.append(COMMENT_PREFIX);
    r.append("Please type your questions above, save and quit");
    r.append(COMMENT_POSTFIX);
    r.append("\n");
    r
}

/// The message of an empty question.
pub open spec fn spec_empty_question_message() -> Seq<char> {
    "Got empty question, quitting"@
}

/// The question that is sent for the edited question file `raw`: the
/// user's text, and for a quick chat the request to answer shortly.
pub open spec fn spec_question(raw: Seq<char>, slow: bool) -> Seq<char> {
    let q = spec_user_text(raw, COMMENT_PREFIX@);
    if slow {
        q
    } else {
        q + " (make the answer short)"@
    }
}

/// The question that is sent for the edited question file `raw` (see
/// [`spec_question`]), or an error of kind `AiInvalidReply` when the user
/// wrote nothing.
pub fn question(raw: &str, slow: bool) -> (res: Result<String, TheyaError>)
    ensures
        spec_user_text(raw@, COMMENT_PREFIX@).len() > 0 ==> (res matches Ok(q) && q@
            == spec_question(raw@, slow)),
        spec_user_text(raw@, COMMENT_PREFIX@).len() == 0 ==> (res matches Err(e) && e.kind
            == ErrorKind::AiInvalidReply && e.msg@ == spec_empty_question_message()),
{
    let mut q = editor_text(raw);
    if q.as_str().is_empty() {
        return Err(
            TheyaError::new(ErrorKind::AiInvalidReply, String::from_str("Got empty question, quitting")),
        );
    }
    if !slow {
        q.append(" (make the answer short)");
    }
    Ok(q)
}

/// The answer file before its lines are cleaned.
pub open spec fn spec_answer_draft(question: Seq<char>, seconds: Seq<char>, response: Seq<char>) -> Seq<
    char,
> {
    "# Question\n```\n"@ + question + "\n```\n# Time spent: "@ + seconds
        + " seconds.\n\n# Answer\n\n"@ + response + "\n"@
}

/// The lines of `ls` without their trailing whitespace.
pub open spec fn trimmed_lines(ls: Seq<Seq<char>>) -> Seq<Seq<char>> {
    Seq::new(ls.len(), |i: int| trim_end(ls[i]))
}

/// The answer file: the question, the time the answer took (`seconds`,
/// already written with two decimals), and the answer, each line without
/// its trailing whitespace, and a final newline.
pub open spec fn spec_answer(question: Seq<char>, seconds: Seq<char>, response: Seq<char>) -> Seq<
    char,
> {
    spec_join(trimmed_lines(spec_lines(spec_answer_draft(question, seconds, response))), "\n"@)
        + "\n"@
}

/// The answer file (see [`spec_answer`]).
pub fn answer(question: &str, seconds: &str, response: &str) -> (r: String)
    ensures
        r@ == spec_answer(question@, seconds@, response@),
{
    let mut draft = concat3("# Question\n```\n", question, "\n```\n# Time spent: ");
    draft.append(seconds);
    draft.append(" seconds.\n\n# Answer\n\n");
    draft.append(response);
    draft.append("\n");
    let ls = lines(draft.as_str());
    let mut out: Vec<String> = Vec::new();
    let mut i: usize = 0;
    while i < ls.len()
        invariant
            0 <= i <= ls.len(),
            views(out@) == trimmed_lines(views(ls@)).take(i as int),
        decreases ls.len() - i,
    {
        let t = trim_end_str(ls[i].as_str());
        let ghost before = views(out@);
        out.push(t);
        assert(views(out@) == before.push(trim_end(ls@[i as int]@)));
        assert(trimmed_lines(views(ls@)).take(i + 1) == trimmed_lines(views(ls@)).take(
            i as int,
        ).push(trim_end(ls@[i as int]@)));
        i += 1;
    }
    assert(trimmed_lines(views(ls@)).take(ls.len() as int) == trimmed_lines(views(ls@)));
    let body = join(&out, "\n");
    concat(body.as_str(), "\n")
}

/// Each line of the answer file is the matching line of the text it is
/// made of (the question, the time spent and the answer, laid out under
/// their headings) with only its trailing whitespace removed: the file is
/// some lines `ls`, one per line of that text, joined by newlines with a
/// final newline, where each `ls[i]` is a prefix of line `i` (so leading
/// whitespace and indentation are kept), what is cut off is whitespace, and
/// `ls[i]` does not end in whitespace.
pub proof fn lemma_answer_keeps_indentation(question: Seq<char>, seconds: Seq<char>, response: Seq<char>)
    ensures
        exists|ls: Seq<Seq<char>>|
            #![trigger spec_join(ls, "\n"@)]
            {
                let d = spec_lines(
                    "# Question\n```\n"@ + question + "\n```\n# Time spent: "@ + seconds
                        + " seconds.\n\n# Answer\n\n"@ + response + "\n"@,
                );
                &&& spec_answer(question, seconds, response) == spec_join(ls, "\n"@) + "\n"@
                &&& ls.len() == d.len()
                &&& forall|i: int|
                    #![trigger ls[i]]
                    0 <= i < ls.len() ==> {
                        &&& ls[i].len() <= d[i].len()
                        &&& d[i].take(ls[i].len() as int) == ls[i]
                        &&& forall|j: int|
                            ls[i].len() <= j < d[i].len() ==> is_whitespace(#[trigger] d[i][j])
                        &&& (ls[i].len() == 0 || !is_whitespace(ls[i].last()))
                    }
            },
{
    let d = spec_lines(spec_answer_draft(question, seconds, response));
    let ls = trimmed_lines(d);
    assert forall|i: int| 0 <= i < ls.len() implies {
        &&& ls[i].len() <= d[i].len()
        &&& d[i].take(ls[i].len() as int) == ls[i]
        &&& forall|j: int| ls[i].len() <= j < d[i].len() ==> is_whitespace(#[trigger] d[i][j])
        &&& (ls[i].len() == 0 || !is_whitespace(ls[i].last()))
    } by {
        lemma_trim_end_shape(d[i]);
    }
    assert(spec_answer(question, seconds, response) == spec_join(ls, "\n"@) + "\n"@);
}

} // verus!
