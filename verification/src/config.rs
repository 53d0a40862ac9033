//! Configuration: the sections of the config file, their defaults, and how
//! the `[main]` section fills what the other sections leave empty.
use vstd::prelude::*;

use crate::text::concat3;

verus! {

/// The model used where the config names none.
pub open spec fn spec_default_model() -> Seq<char> {
    "gpt-4o"@
}

/// The API endpoint used where the config names none.
pub open spec fn spec_default_uri() -> Seq<char> {
    "https://api.openai.com"@
}

/// The reply size limit of quick chat where the config sets none.
pub const DEFAULT_QUICK_CHAT_MAX_TOKENS: i32 = 1024;

/// Where the config file lies, below the home directory.
pub open spec fn spec_config_path() -> Seq<char> {
    ".config/theya/config"@
}

/// The default API endpoint.
pub fn default_uri() -> (r: String)
    ensures
        r@ == spec_default_uri(),
{
    String::from_str("https://api.openai.com")
}

/// The default model.
pub fn default_model() -> (r: String)
    ensures
        r@ == spec_default_model(),
{
    String::from_str("gpt-4o")
}

/// The default reply size limit of quick chat.
pub fn default_quick_chat_max_tokens() -> (r: i32)
    ensures
        r == DEFAULT_QUICK_CHAT_MAX_TOKENS,
{
    DEFAULT_QUICK_CHAT_MAX_TOKENS
}

/// The default system prompt of the coding assistant.
pub open spec fn spec_default_code_guideline() -> Seq<char> {
    "You are a Linux Software developer who is working in a git repo and providing code assistant. The common workflow(in provided order):\n* Check historical git commit of related files\n* Modify non-test code\n* Compile and fix error\n* Run unit test and fix error\n* Add unit test if fit\n* Run code format and lint check"@
}

/// The default system prompt of the coding assistant.
pub fn default_code_guideline() -> (r: String)
    ensures
        r@ == spec_default_code_guideline(),
{
    String::from_str(
        "You are a Linux Software developer who is working in a git repo and providing code assistant. The common workflow(in provided order):\n* Check historical git commit of related files\n* Modify non-test code\n* Compile and fix error\n* Run unit test and fix error\n* Add unit test if fit\n* Run code format and lint check",
    )
}

/// The path of the config file for the home directory `home`.
pub fn config_path(home: &str) -> (r: String)
    ensures
        r@ == home@ + "/"@ + spec_config_path(),
{
    concat3(home, "/", ".config/theya/config")
}

fn clone_opt(s: &Option<String>) -> (r: Option<String>)
    ensures
        r == *s,
{
    match s {
        Some(v) => Some(v.clone()),
        None => None,
    }
}

/// `[memory]`: the long-term memory store.
#[derive(Debug)]
pub struct TheyaMemoryConfig {
    /// Whether to index GitHub Copilot chat history.
    pub copilot: bool,
    /// URI of the chat API that extracts knowledge (falls back to `[main]`).
    pub uri: String,
    pub api_key: String,
    /// Model that extracts knowledge (falls back to the quick-chat model).
    pub model: String,
    /// URI of the embeddings API (falls back to `uri`).
    pub embed_uri: String,
    /// Model that computes embeddings (falls back to `model`).
    pub embed_model: String,
    /// Dimensions of the embedding vectors, when not the model's own.
    pub embed_dimensions: Option<u32>,
}

impl Default for TheyaMemoryConfig {
    fn default() -> (r: Self)
        ensures
            !r.copilot,
            r.uri@.len() == 0,
            r.api_key@.len() == 0,
            r.model@.len() == 0,
            r.embed_uri@.len() == 0,
            r.embed_model@.len() == 0,
            r.embed_dimensions is None,
    {
        TheyaMemoryConfig {
            copilot: false,
            uri: String::new(),
            api_key: String::new(),
            model: String::new(),
            embed_uri: String::new(),
            embed_model: String::new(),
            embed_dimensions: None,
        }
    }
}

/// `[main]`: the endpoint and key that other sections fall back to.
#[derive(Debug)]
pub struct TheyaMainConfig {
    pub uri: String,
    pub api_key: String,
}

impl Default for TheyaMainConfig {
    fn default() -> (r: Self)
        ensures
            r.uri@ == spec_default_uri(),
            r.api_key@.len() == 0,
    {
        TheyaMainConfig { uri: default_uri(), api_key: String::new() }
    }
}

/// `[quick-chat]`.
#[derive(Debug)]
pub struct TheyaQuickChatConfig {
    pub model: String,
    pub uri: String,
    pub api_key: String,
    pub max_tokens: i32,
}

impl Default for TheyaQuickChatConfig {
    fn default() -> (r: Self)
        ensures
            r.model@ == spec_default_model(),
            r.uri@ == spec_default_uri(),
            r.api_key@.len() == 0,
            r.max_tokens == DEFAULT_QUICK_CHAT_MAX_TOKENS,
    {
        TheyaQuickChatConfig {
            model: default_model(),
            uri: default_uri(),
            api_key: String::new(),
            max_tokens: DEFAULT_QUICK_CHAT_MAX_TOKENS,
        }
    }
}

impl TheyaQuickChatConfig {
    /// The section of a file that does not have it: the default model and
    /// token limit, and no endpoint or key of its own, so that those of
    /// `[main]` apply.
    pub fn absent() -> (r: Self)
        ensures
            r.model@ == spec_default_model(),
            r.uri@.len() == 0,
            r.api_key@.len() == 0,
            r.max_tokens == DEFAULT_QUICK_CHAT_MAX_TOKENS,
    {
        TheyaQuickChatConfig {
            model: default_model(),
            uri: String::new(),
            api_key: String::new(),
            max_tokens: DEFAULT_QUICK_CHAT_MAX_TOKENS,
        }
    }
}

/// `[slow-chat]`.
#[derive(Debug)]
pub struct TheyaSlowChatConfig {
    pub model: String,
    pub uri: String,
    pub api_key: String,
    pub max_tokens: Option<i32>,
}

impl Default for TheyaSlowChatConfig {
    fn default() -> (r: Self)
        ensures
            r.model@ == spec_default_model(),
            r.uri@ == spec_default_uri(),
            r.api_key@.len() == 0,
            r.max_tokens is None,
    {
        TheyaSlowChatConfig {
            model: default_model(),
            uri: default_uri(),
            api_key: String::new(),
            max_tokens: None,
        }
    }
}

impl TheyaSlowChatConfig {
    /// The section of a file that does not have it: the default model, and
    /// no endpoint or key of its own, so that those of `[main]` apply.
    pub fn absent() -> (r: Self)
        ensures
            r.model@ == spec_default_model(),
            r.uri@.len() == 0,
            r.api_key@.len() == 0,
            r.max_tokens is None,
    {
        TheyaSlowChatConfig {
            model: default_model(),
            uri: String::new(),
            api_key: String::new(),
            max_tokens: None,
        }
    }
}

/// `[patch-review]`.
#[derive(Debug)]
pub struct TheyaPatchReviewConfig {
    pub model: String,
    pub uri: String,
    pub api_key: String,
    pub max_tokens: Option<i32>,
}

impl Default for TheyaPatchReviewConfig {
    fn default() -> (r: Self)
        ensures
            r.model@ == spec_default_model(),
            r.uri@ == spec_default_uri(),
            r.api_key@.len() == 0,
            r.max_tokens is None,
    {
        TheyaPatchReviewConfig {
            model: default_model(),
            uri: default_uri(),
            api_key: String::new(),
            max_tokens: None,
        }
    }
}

impl TheyaPatchReviewConfig {
    /// The section of a file that does not have it: the default model, and
    /// no endpoint or key of its own, so that those of `[main]` apply.
    pub fn absent() -> (r: Self)
        ensures
            r.model@ == spec_default_model(),
            r.uri@.len() == 0,
            r.api_key@.len() == 0,
            r.max_tokens is None,
    {
        TheyaPatchReviewConfig {
            model: default_model(),
            uri: String::new(),
            api_key: String::new(),
            max_tokens: None,
        }
    }
}

/// `[projects.<name>]`: how to build and check one project.
#[derive(Debug)]
pub struct TheyaProjectConfig {
    /// URL of the project's git remote `origin`.
    pub git: String,
    /// Command that compiles.
    pub compile: Option<String>,
    pub format: Option<String>,
    pub lint: Option<String>,
    /// Command that runs the unit tests.
    pub unit_test: Option<String>,
    /// Command that runs the integration tests.
    pub integ_test: Option<String>,
}

impl Default for TheyaProjectConfig {
    fn default() -> (r: Self)
        ensures
            r.git@.len() == 0,
            r.compile is None,
            r.format is None,
            r.lint is None,
            r.unit_test is None,
            r.integ_test is None,
    {
        TheyaProjectConfig {
            git: String::new(),
            compile: None,
            format: None,
            lint: None,
            unit_test: None,
            integ_test: None,
        }
    }
}

impl TheyaProjectConfig {
    /// A field-for-field copy.
    pub fn copy(&self) -> (r: Self)
        ensures
            r == *self,
    {
        TheyaProjectConfig {
            git: self.git.clone(),
            compile: clone_opt(&self.compile),
            format: clone_opt(&self.format),
            lint: clone_opt(&self.lint),
            unit_test: clone_opt(&self.unit_test),
            integ_test: clone_opt(&self.integ_test),
        }
    }
}

/// `[code]`.
#[derive(Debug)]
pub struct TheyaCodeConfig {
    pub uri: String,
    pub model: String,
    pub api_key: String,
    pub guideline: String,
    pub max_tokens: Option<i32>,
}

impl Default for TheyaCodeConfig {
    fn default() -> (r: Self)
        ensures
            r.uri@ == spec_default_uri(),
            r.model@ == spec_default_model(),
            r.api_key@.len() == 0,
            r.guideline@ == spec_default_code_guideline(),
            r.max_tokens is None,
    {
        TheyaCodeConfig {
            uri: default_uri(),
            model: default_model(),
            api_key: String::new(),
            guideline: default_code_guideline(),
            max_tokens: None,
        }
    }
}

impl TheyaCodeConfig {
    /// The section of a file that does not have it: the default model and
    /// guideline, and no endpoint or key of its own, so that those of
    /// `[main]` apply.
    pub fn absent() -> (r: Self)
        ensures
            r.uri@.len() == 0,
            r.model@ == spec_default_model(),
            r.api_key@.len() == 0,
            r.guideline@ == spec_default_code_guideline(),
            r.max_tokens is None,
    {
        TheyaCodeConfig {
            uri: String::new(),
            model: default_model(),
            api_key: String::new(),
            guideline: default_code_guideline(),
            max_tokens: None,
        }
    }
}

/// The whole configuration. `projects` holds the `[projects.<name>]`
/// sections as (name, section) pairs, one per name: a configuration built
/// by [`TheyaConfig::default`] and [`TheyaConfig::insert_project`] keeps
/// [`unique_project_names`].
#[derive(Debug)]
pub struct TheyaConfig {
    pub main: TheyaMainConfig,
    pub quick_chat: TheyaQuickChatConfig,
    pub slow_chat: TheyaSlowChatConfig,
    pub patch_review: TheyaPatchReviewConfig,
    pub code: TheyaCodeConfig,
    pub memory: TheyaMemoryConfig,
    pub projects: Vec<(String, TheyaProjectConfig)>,
}

impl Default for TheyaConfig {
    fn default() -> (r: Self)
        ensures
            r.main.uri@ == spec_default_uri(),
            r.main.api_key@.len() == 0,
            r.quick_chat.model@ == spec_default_model(),
            r.quick_chat.uri@ == spec_default_uri(),
            r.quick_chat.api_key@.len() == 0,
            r.quick_chat.max_tokens == DEFAULT_QUICK_CHAT_MAX_TOKENS,
            r.slow_chat.model@ == spec_default_model(),
            r.slow_chat.uri@ == spec_default_uri(),
            r.slow_chat.api_key@.len() == 0,
            r.slow_chat.max_tokens is None,
            r.patch_review.model@ == spec_default_model(),
            r.patch_review.uri@ == spec_default_uri(),
            r.patch_review.api_key@.len() == 0,
            r.patch_review.max_tokens is None,
            r.code.uri@ == spec_default_uri(),
            r.code.model@ == spec_default_model(),
            r.code.api_key@.len() == 0,
            r.code.guideline@ == spec_default_code_guideline(),
            r.code.max_tokens is None,
            !r.memory.copilot,
            r.memory.uri@.len() == 0,
            r.memory.api_key@.len() == 0,
            r.memory.model@.len() == 0,
            r.memory.embed_uri@.len() == 0,
            r.memory.embed_model@.len() == 0,
            r.memory.embed_dimensions is None,
            r.projects@.len() == 0,
    {
        TheyaConfig {
            main: TheyaMainConfig::default(),
            quick_chat: TheyaQuickChatConfig::default(),
            slow_chat: TheyaSlowChatConfig::default(),
            patch_review: TheyaPatchReviewConfig::default(),
            code: TheyaCodeConfig::default(),
            memory: TheyaMemoryConfig::default(),
            projects: Vec::new(),
        }
    }
}

/// Whether no two `[projects.<name>]` sections share a name, as no two keys
/// of a table can.
pub open spec fn unique_project_names(ps: Seq<(String, TheyaProjectConfig)>) -> bool {
    forall|i: int, j: int| 0 <= i < j < ps.len() ==> (#[trigger] ps[i]).0@ != (#[trigger] ps[j]).0@
}

/// `value`, or `fallback` when `value` is empty.
pub open spec fn or_else(value: String, fallback: String) -> String {
    if value@.len() == 0 {
        fallback
    } else {
        value
    }
}

/// The configuration after the fallbacks: each section's empty `uri` and
/// `api_key` take those of `[main]`; an empty memory `model` takes the
/// quick-chat model; an empty `embed_uri` takes the memory `uri` (after its
/// own fallback) and an empty `embed_model` the memory `model` (after its
/// own fallback). Everything else is kept.
pub open spec fn with_fallbacks(c: TheyaConfig) -> TheyaConfig {
    let memory_uri = or_else(c.memory.uri, c.main.uri);
    let memory_model = or_else(c.memory.model, c.quick_chat.model);
    TheyaConfig {
        quick_chat: TheyaQuickChatConfig {
            uri: or_else(c.quick_chat.uri, c.main.uri),
            api_key: or_else(c.quick_chat.api_key, c.main.api_key),
            ..c.quick_chat
        },
        slow_chat: TheyaSlowChatConfig {
            uri: or_else(c.slow_chat.uri, c.main.uri),
            api_key: or_else(c.slow_chat.api_key, c.main.api_key),
            ..c.slow_chat
        },
        patch_review: TheyaPatchReviewConfig {
            uri: or_else(c.patch_review.uri, c.main.uri),
            api_key: or_else(c.patch_review.api_key, c.main.api_key),
            ..c.patch_review
        },
        code: TheyaCodeConfig {
            uri: or_else(c.code.uri, c.main.uri),
            api_key: or_else(c.code.api_key, c.main.api_key),
            ..c.code
        },
        memory: TheyaMemoryConfig {
            uri: memory_uri,
            api_key: or_else(c.memory.api_key, c.main.api_key),
            model: memory_model,
            embed_uri: or_else(c.memory.embed_uri, memory_uri),
            embed_model: or_else(c.memory.embed_model, memory_model),
            ..c.memory
        },
        ..c
    }
}

fn fill(value: &mut String, fallback: &String)
    ensures
        *final(value) == or_else(*old(value), *fallback),
{
    if value.as_str().is_empty() {
        *value = fallback.clone();
    }
}

impl TheyaConfig {
    /// Fills the settings that the sections leave empty from `[main]` (and
    /// the memory settings from each other), as [`with_fallbacks`] says.
    pub fn apply_main_config(&mut self)
        ensures
            *final(self) == with_fallbacks(*old(self)),
    {
        fill(&mut self.quick_chat.uri, &self.main.uri);
        fill(&mut self.quick_chat.api_key, &self.main.api_key);
        fill(&mut self.slow_chat.uri, &self.main.uri);
        fill(&mut self.slow_chat.api_key, &self.main.api_key);
        fill(&mut self.patch_review.uri, &self.main.uri);
        fill(&mut self.patch_review.api_key, &self.main.api_key);
        fill(&mut self.code.uri, &self.main.uri);
        fill(&mut self.code.api_key, &self.main.api_key);
        fill(&mut self.memory.uri, &self.main.uri);
        fill(&mut self.memory.api_key, &self.main.api_key);
        fill(&mut self.memory.model, &self.quick_chat.model);
        fill(&mut self.memory.embed_uri, &self.memory.uri);
        fill(&mut self.memory.embed_model, &self.memory.model);
    }

    /// Sets the section `[projects.<name>]` to `project`, as a table
    /// insert does: an existing section of that name is replaced where it
    /// stands, else the section is added at the end. Names stay unique.
    pub fn insert_project(&mut self, name: String, project: TheyaProjectConfig)
        ensures
            *final(self) == (TheyaConfig { projects: final(self).projects, ..*old(self) }),
            unique_project_names(old(self).projects@) ==> unique_project_names(final(self).projects@),
            (exists|i: int| 0 <= i < old(self).projects@.len() && (#[trigger] old(self).projects@[i]).0@ == name@)
                ==> (exists|i: int|
                0 <= i < old(self).projects@.len() && old(self).projects@[i].0@ == name@
                    && final(self).projects@ == old(self).projects@.update(i, (name, project))),
            !(exists|i: int| 0 <= i < old(self).projects@.len() && (#[trigger] old(self).projects@[i]).0@ == name@)
                ==> final(self).projects@ == old(self).projects@.push((name, project)),
    {
        let mut i: usize = 0;
        while i < self.projects.len()
            invariant
                0 <= i <= self.projects@.len(),
                *self == *old(self),
                forall|j: int| 0 <= j < i ==> (#[trigger] self.projects@[j]).0@ != name@,
            decreases self.projects@.len() - i,
        {
            if self.projects[i].0 == name {
                self.projects.set(i, (name, project));
                return;
            }
            i += 1;
        }
        self.projects.push((name, project));
    }

    /// The section of the project whose git remote is `url`: the first such
    /// section, or the default one when there is none.
    pub fn find_project(projects: &Vec<(String, TheyaProjectConfig)>, url: &str) -> (r:
        TheyaProjectConfig)
        ensures
            (exists|i: int| 0 <= i < projects@.len() && projects@[i].1.git@ == url@) ==> (exists|
                i: int,
            |
                0 <= i < projects@.len() && projects@[i].1.git@ == url@ && r == projects@[i].1
                    && forall|j: int| 0 <= j < i ==> projects@[j].1.git@ != url@),
            !(exists|i: int| 0 <= i < projects@.len() && projects@[i].1.git@ == url@) ==> (
            r.git@.len() == 0 && r.compile is None && r.format is None && r.lint is None
                && r.unit_test is None && r.integ_test is None),
    {
        let u = url.to_string();
        proof {
            vstd::string::to_string_from_display_ensures_for_str(url, u);
        }
        let mut i: usize = 0;
        while i < projects.len()
            invariant
                0 <= i <= projects.len(),
                u@ == url@,
                forall|j: int| 0 <= j < i ==> projects@[j].1.git@ != url@,
            decreases projects.len() - i,
        {
            if projects[i].1.git == u {
                return projects[i].1.copy();
            }
            i += 1;
        }
        TheyaProjectConfig::default()
    }
}

/// Filling from `[main]` twice gives what filling once gives.
pub proof fn lemma_fallbacks_idempotent(c: TheyaConfig)
    ensures
        with_fallbacks(with_fallbacks(c)) == with_fallbacks(c),
{
}

/// After the fallbacks, a section keeps each endpoint and key that it gave,
/// and one that it left empty is that of `[main]`; the memory section's
/// model falls back to the quick-chat model, its embeddings endpoint and
/// model to its own (filled) endpoint and model. `[main]`, the models and
/// the projects are kept.
pub proof fn lemma_fallbacks_keep_explicit(c: TheyaConfig)
    ensures
        c.quick_chat.uri@.len() > 0 ==> with_fallbacks(c).quick_chat.uri == c.quick_chat.uri,
        c.quick_chat.uri@.len() == 0 ==> with_fallbacks(c).quick_chat.uri == c.main.uri,
        c.quick_chat.api_key@.len() > 0 ==> with_fallbacks(c).quick_chat.api_key
            == c.quick_chat.api_key,
        c.quick_chat.api_key@.len() == 0 ==> with_fallbacks(c).quick_chat.api_key
            == c.main.api_key,
        c.slow_chat.uri@.len() > 0 ==> with_fallbacks(c).slow_chat.uri == c.slow_chat.uri,
        c.slow_chat.uri@.len() == 0 ==> with_fallbacks(c).slow_chat.uri == c.main.uri,
        c.slow_chat.api_key@.len() > 0 ==> with_fallbacks(c).slow_chat.api_key
            == c.slow_chat.api_key,
        c.slow_chat.api_key@.len() == 0 ==> with_fallbacks(c).slow_chat.api_key == c.main.api_key,
        c.patch_review.uri@.len() > 0 ==> with_fallbacks(c).patch_review.uri
            == c.patch_review.uri,
        c.patch_review.uri@.len() == 0 ==> with_fallbacks(c).patch_review.uri == c.main.uri,
        c.patch_review.api_key@.len() > 0 ==> with_fallbacks(c).patch_review.api_key
            == c.patch_review.api_key,
        c.patch_review.api_key@.len() == 0 ==> with_fallbacks(c).patch_review.api_key
            == c.main.api_key,
        c.code.uri@.len() > 0 ==> with_fallbacks(c).code.uri == c.code.uri,
        c.code.uri@.len() == 0 ==> with_fallbacks(c).code.uri == c.main.uri,
        c.code.api_key@.len() > 0 ==> with_fallbacks(c).code.api_key == c.code.api_key,
        c.code.api_key@.len() == 0 ==> with_fallbacks(c).code.api_key == c.main.api_key,
        c.memory.uri@.len() > 0 ==> with_fallbacks(c).memory.uri == c.memory.uri,
        c.memory.uri@.len() == 0 ==> with_fallbacks(c).memory.uri == c.main.uri,
        c.memory.api_key@.len() > 0 ==> with_fallbacks(c).memory.api_key == c.memory.api_key,
        c.memory.api_key@.len() == 0 ==> with_fallbacks(c).memory.api_key == c.main.api_key,
        c.memory.model@.len() > 0 ==> with_fallbacks(c).memory.model == c.memory.model,
        c.memory.model@.len() == 0 ==> with_fallbacks(c).memory.model == c.quick_chat.model,
        c.memory.embed_uri@.len() > 0 ==> with_fallbacks(c).memory.embed_uri
            == c.memory.embed_uri,
        c.memory.embed_uri@.len() == 0 ==> with_fallbacks(c).memory.embed_uri
            == with_fallbacks(c).memory.uri,
        c.memory.embed_model@.len() > 0 ==> with_fallbacks(c).memory.embed_model
            == c.memory.embed_model,
        c.memory.embed_model@.len() == 0 ==> with_fallbacks(c).memory.embed_model
            == with_fallbacks(c).memory.model,
        with_fallbacks(c).main == c.main,
        with_fallbacks(c).quick_chat.model == c.quick_chat.model,
        with_fallbacks(c).quick_chat.max_tokens == c.quick_chat.max_tokens,
        with_fallbacks(c).slow_chat.model == c.slow_chat.model,
        with_fallbacks(c).patch_review.model == c.patch_review.model,
        with_fallbacks(c).code.model == c.code.model,
        with_fallbacks(c).code.guideline == c.code.guideline,
        with_fallbacks(c).memory.copilot == c.memory.copilot,
        with_fallbacks(c).projects == c.projects,
        unique_project_names(c.projects@) ==> unique_project_names(with_fallbacks(c).projects@),
{
}

/// When `[main]` names an endpoint, no section is left without one after
/// the fallbacks, the embeddings endpoint included.
pub proof fn lemma_fallbacks_fill_endpoints(c: TheyaConfig)
    requires
        c.main.uri@.len() > 0,
    ensures
        with_fallbacks(c).quick_chat.uri@.len() > 0,
        with_fallbacks(c).slow_chat.uri@.len() > 0,
        with_fallbacks(c).patch_review.uri@.len() > 0,
        with_fallbacks(c).code.uri@.len() > 0,
        with_fallbacks(c).memory.uri@.len() > 0,
        with_fallbacks(c).memory.embed_uri@.len() > 0,
{
}

} // verus!
