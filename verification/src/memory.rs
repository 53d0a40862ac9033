//! Long-term memory: splitting documents into chunks, the entries that the
//! store keeps, and the Copilot chat histories that knowledge is drawn from.
use vstd::prelude::*;

use crate::error::{ErrorKind, TheyaError};
use vstd::string::StringSliceAdditionalSpecFns;
use crate::json::{parse_json, serde_json_parse, spec_get, spec_member_is_null, spec_str_member, JsonValue};
use crate::editor::{spec_user_text, user_text};
use crate::text::{
    chars_of, concat, concat3, decimal, join, lines, spec_join, spec_lines, spec_split_nonempty,
    split_nonempty, string_of_range, trim, trim_str, u64_to_string, views,
};

verus! {

/// Maximum characters of a chunk when a document is split.
pub const CHUNK_SIZE: usize = 1500;

/// Characters that consecutive chunks share.
pub const CHUNK_OVERLAP: usize = 200;

/// Shortest extracted knowledge, in bytes, that is worth storing.
pub const MIN_KNOWLEDGE_LEN: usize = 64;

// ---------------------------------------------------------------------------
// Chunks
// ---------------------------------------------------------------------------

/// How far apart consecutive chunks start: `max_chars - overlap`, and at
/// least 1.
pub open spec fn chunk_step(max_chars: nat, overlap: nat) -> nat {
    if max_chars > overlap {
        (max_chars - overlap) as nat
    } else {
        1
    }
}

/// The chunks of `cs` that start at `start`, `start + step`, ...: each is
/// `max` characters long or reaches the end, and the first that reaches the
/// end is the last.
pub open spec fn chunks_from(cs: Seq<char>, start: nat, max: nat, step: nat) -> Seq<Seq<char>>
    decreases (if start <= cs.len() {
        cs.len() - start
    } else {
        0
    }),
    when step > 0
{
    if start >= cs.len() {
        seq![]
    } else if start + max >= cs.len() {
        seq![cs.subrange(start as int, cs.len() as int)]
    } else {
        seq![cs.subrange(start as int, (start + max) as int)] + chunks_from(
            cs,
            start + step,
            max,
            step,
        )
    }
}

/// The chunks of a text: the whole text when it has at most `max_chars`
/// characters, else the overlapping windows of [`chunks_from`].
pub open spec fn spec_chunk_text(s: Seq<char>, max_chars: nat, overlap: nat) -> Seq<Seq<char>> {
    if s.len() <= max_chars {
        seq![s]
    } else {
        chunks_from(s, 0, max_chars, chunk_step(max_chars, overlap))
    }
}

/// Where window `i` begins, relative to the first one.
pub open spec fn window_start(i: int, step: nat) -> int {
    i * step
}

/// Whether position `k` lies in one of the first `count` windows.
pub open spec fn in_some_window(len: nat, count: int, st: nat, max: nat, k: int) -> bool {
    exists|i: int|
        0 <= i < count && #[trigger] window_start(i, st) <= k && k < chunk_end(
            len,
            window_start(i, st) as nat,
            max,
        )
}

/// The end of the chunk that starts at `start`.
pub open spec fn chunk_end(len: nat, start: nat, max: nat) -> nat {
    if start + max >= len {
        len
    } else {
        start + max
    }
}

proof fn lemma_chunks_from_shape(cs: Seq<char>, start: nat, max: nat, step: nat)
    requires
        0 < step <= max,
        start < cs.len(),
    ensures
        ({
            let ch = chunks_from(cs, start, max, step);
            &&& ch.len() > 0
            &&& forall|i: int|
                #![trigger ch[i]]
                #![trigger window_start(i, step)]
                0 <= i < ch.len() ==> (start + window_start(i, step) < cs.len() && ch[i]
                    == cs.subrange(
                    start + window_start(i, step),
                    chunk_end(cs.len(), (start + window_start(i, step)) as nat, max) as int,
                ))
            &&& forall|i: int| 0 <= i < ch.len() - 1 ==> #[trigger] (start + i * step) + max < cs.len()
            &&& start + (ch.len() - 1) * step + max >= cs.len()
        }),
    decreases cs.len() - start,
{
    let ch = chunks_from(cs, start, max, step);
    if start + max >= cs.len() {
        assert(ch.len() == 1);
        assert(ch[0] == cs.subrange(start as int, cs.len() as int));
        assert forall|i: int|
            #![trigger ch[i]]
            #![trigger window_start(i, step)]
            0 <= i < ch.len() implies (start + window_start(i, step) < cs.len() && ch[i]
                == cs.subrange(
                start + window_start(i, step),
                chunk_end(cs.len(), (start + window_start(i, step)) as nat, max) as int,
            )) by {
            assert(i * step == 0) by (nonlinear_arith)
                requires
                    i == 0,
            ;
        }
        assert((ch.len() - 1) * step == 0);
    } else {
        let next = (start + step) as nat;
        let rest = chunks_from(cs, next, max, step);
        lemma_chunks_from_shape(cs, next, max, step);
        assert(ch == seq![cs.subrange(start as int, (start + max) as int)] + rest);
        assert forall|i: int|
            #![trigger ch[i]]
            #![trigger window_start(i, step)]
            0 <= i < ch.len() implies (start + window_start(i, step) < cs.len() && ch[i]
                == cs.subrange(
                start + window_start(i, step),
                chunk_end(cs.len(), (start + window_start(i, step)) as nat, max) as int,
            )) by {
            if i > 0 {
                assert(ch[i] == rest[i - 1]);
                assert(next + (i - 1) * step < cs.len());
                assert(next + (i - 1) * step == start + i * step) by (nonlinear_arith)
                    requires
                        next == start + step,
                ;
                assert(start + i * step < cs.len());
            } else {
                assert(i * step == 0) by (nonlinear_arith)
                    requires
                        i == 0,
                ;
                assert(start + i * step < cs.len());
            }
        }
        assert forall|i: int| 0 <= i < ch.len() - 1 implies #[trigger] (start + i * step) + max
            < cs.len() by {
            if i > 0 {
                assert(next + (i - 1) * step == start + i * step) by (nonlinear_arith)
                    requires
                        next == start + step,
                ;
                assert((next + (i - 1) * step) + max < cs.len());
            } else {
                assert(i * step == 0) by (nonlinear_arith)
                    requires
                        i == 0,
                ;
            }
        }
        assert(next + (rest.len() - 1) * step == start + (ch.len() - 1) * step) by (nonlinear_arith)
            requires
                next == start + step,
                ch.len() == rest.len() + 1,
        ;
    }
}

/// The chunks of a text longer than `max_chars` (a positive number) are
/// windows of the text: chunk `i` starts at character `i * step`, where
/// `step` is [`chunk_step`], and holds `max_chars` characters, but for the
/// last chunk, which runs to the end of the text; consecutive chunks share
/// `max_chars - step` characters (the overlap, when it is below
/// `max_chars`); and every character of the text lies in some chunk.
pub proof fn lemma_chunk_text_windows(s: Seq<char>, max_chars: nat, overlap: nat)
    requires
        max_chars > 0,
        s.len() > max_chars,
    ensures
        ({
            let ch = spec_chunk_text(s, max_chars, overlap);
            let st = chunk_step(max_chars, overlap);
            &&& ch.len() > 0
            &&& forall|i: int|
                #![trigger ch[i]]
                #![trigger window_start(i, st)]
                0 <= i < ch.len() ==> (window_start(i, st) < s.len() && ch[i] == s.subrange(
                    window_start(i, st),
                    chunk_end(s.len(), window_start(i, st) as nat, max_chars) as int,
                ))
            &&& forall|i: int| 0 <= i < ch.len() - 1 ==> (#[trigger] ch[i]).len() == max_chars
            &&& (ch.len() - 1) * st + max_chars >= s.len()
            &&& forall|i: int|
                0 <= i < ch.len() - 1 ==> (#[trigger] ch[i]).skip(st as int) == ch[i + 1].take(
                    max_chars - st,
                )
            &&& forall|k: int|
                0 <= k < s.len() ==> #[trigger] in_some_window(s.len(), ch.len() as int, st, max_chars, k)
        }),
{
    let st = chunk_step(max_chars, overlap);
    let ch = spec_chunk_text(s, max_chars, overlap);
    lemma_chunks_from_shape(s, 0, max_chars, st);
    assert(ch == chunks_from(s, 0, max_chars, st));
    assert forall|i: int| 0 <= i < ch.len() - 1 implies (#[trigger] ch[i]).len() == max_chars by {
        assert(0 + i * st + max_chars < s.len());
        assert(ch[i] == s.subrange(0 + i * st, chunk_end(s.len(), (0 + i * st) as nat, max_chars) as int));
    }
    assert forall|i: int| 0 <= i < ch.len() - 1 implies (#[trigger] ch[i]).skip(st as int) == ch[
        i + 1].take(max_chars - st) by {
        let a = i * st;
        let b = (i + 1) * st;
        assert(b == a + st) by (nonlinear_arith)
            requires
                a == i * st,
                b == (i + 1) * st,
        ;
        assert(0 + i * st + max_chars < s.len());
        assert(ch[i] == s.subrange(0 + i * st, chunk_end(s.len(), (0 + i * st) as nat, max_chars) as int));
        assert(ch[i + 1] == s.subrange(0 + (i + 1) * st, chunk_end(s.len(), (0 + (i + 1) * st) as nat, max_chars) as int));
        assert(ch[i].skip(st as int) == s.subrange(a + st, a + max_chars));
        assert(ch[i + 1].take(max_chars - st) == s.subrange(b, b + max_chars - st));
    }
    assert forall|k: int| 0 <= k < s.len() implies #[trigger] in_some_window(
        s.len(),
        ch.len() as int,
        st,
        max_chars,
        k,
    ) by {
        let last = ch.len() - 1;
        let q = k / (st as int);
        assert(q * st <= k < q * st + st) by (nonlinear_arith)
            requires
                q == k / (st as int),
                st > 0,
                k >= 0,
        ;
        assert(q >= 0) by (nonlinear_arith)
            requires
                q == k / (st as int),
                st > 0,
                k >= 0,
        ;
        if q <= last {
            assert(window_start(q, st) == q * st);
            assert(k < chunk_end(s.len(), window_start(q, st) as nat, max_chars));
        } else {
            assert(last * st <= q * st) by (nonlinear_arith)
                requires
                    last < q,
                    st > 0,
            ;
            assert(0 + window_start(last, st) < s.len());
            assert(window_start(last, st) == last * st);
            assert(0 + (ch.len() - 1) * st + max_chars >= s.len());
            assert(k < chunk_end(s.len(), window_start(last, st) as nat, max_chars));
        }
    }
}

/// The chunks of `text` (see [`spec_chunk_text`]): the whole text when it
/// has at most `max_chars` characters, else windows of `max_chars`
/// characters that start `max_chars - overlap` (at least 1) characters
/// apart, the last one running to the end.
pub fn chunk_text(text: &str, max_chars: usize, overlap: usize) -> (r: Vec<String>)
    ensures
        views(r@) == spec_chunk_text(text@, max_chars as nat, overlap as nat),
{
    let cs = chars_of(text);
    let n = cs.len();
    if n <= max_chars {
        let mut r: Vec<String> = Vec::new();
        r.push(String::from_str(text));
        assert(views(r@) =~= seq![text@]);
        return r;
    }
    let step: usize = if max_chars > overlap {
        max_chars - overlap
    } else {
        1
    };
    let ghost all = chunks_from(cs@, 0, max_chars as nat, step as nat);
    let mut res: Vec<String> = Vec::new();
    let mut start: usize = 0;
    assert(views(res@) + all =~= all);
    while start < n
        invariant
            n == cs@.len(),
            cs@ == text@,
            n > max_chars,
            step == chunk_step(max_chars as nat, overlap as nat),
            step > 0,
            start <= n,
            all == chunks_from(cs@, 0, max_chars as nat, step as nat),
            views(res@) + chunks_from(cs@, start as nat, max_chars as nat, step as nat) == all,
        decreases n - start,
    {
        let end = if max_chars >= n - start {
            n
        } else {
            start + max_chars
        };
        let piece = string_of_range(&cs, start, end);
        let ghost before = views(res@);
        let ghost rest = chunks_from(cs@, start as nat, max_chars as nat, step as nat);
        res.push(piece);
        assert(views(res@) == before.push(cs@.subrange(start as int, end as int)));
        if end == n {
            assert(rest == seq![cs@.subrange(start as int, n as int)]);
            start = n;
            assert(chunks_from(cs@, start as nat, max_chars as nat, step as nat) =~= Seq::<
                Seq<char>,
            >::empty());
            assert(views(res@) + chunks_from(cs@, start as nat, max_chars as nat, step as nat)
                =~= all);
        } else {
            let next = start + step;
            assert(rest == seq![cs@.subrange(start as int, end as int)] + chunks_from(
                cs@,
                next as nat,
                max_chars as nat,
                step as nat,
            ));
            assert(views(res@) + chunks_from(cs@, next as nat, max_chars as nat, step as nat)
                =~= before + rest);
            start = next;
        }
    }
    assert(chunks_from(cs@, start as nat, max_chars as nat, step as nat) =~= Seq::<
        Seq<char>,
    >::empty());
    assert(views(res@) =~= all);
    res
}


// ---------------------------------------------------------------------------
// Entries
// ---------------------------------------------------------------------------

/// One entry of the memory store.
#[derive(Debug)]
pub struct MemoryEntry {
    pub id: String,
    pub source: String,
    pub role: String,
    pub title: String,
    pub content: String,
    pub created_at: String,
    /// The project (`host_type:owner/repo`) that the entry was learnt in;
    /// empty when it belongs to none, as a note does.
    pub project: String,
}

/// Whether `c` is a lower-case hexadecimal digit.
pub open spec fn is_lower_hex(c: char) -> bool {
    ('0' <= c && c <= '9') || ('a' <= c && c <= 'f')
}

/// Whether `s` is the text of a random (version 4) UUID as `Uuid` writes
/// it: 36 characters, hyphens at 8, 13, 18 and 23, lower-case hexadecimal
/// digits elsewhere, the version digit `4` at 14 and a variant digit among
/// `8`, `9`, `a`, `b` at 19.
pub open spec fn is_uuid_v4_text(s: Seq<char>) -> bool {
    &&& s.len() == 36
    &&& forall|i: int|
        0 <= i < 36 ==> (if i == 8 || i == 13 || i == 18 || i == 23 {
            s[i] == '-'
        } else {
            is_lower_hex(#[trigger] s[i])
        })
    &&& s[14] == '4'
    &&& (s[19] == '8' || s[19] == '9' || s[19] == 'a' || s[19] == 'b')
}

/// A new random identifier: `uuid::Uuid::new_v4().to_string()`. What the
/// contract states is the shape of a version 4 UUID's text, which the
/// crate's `new_v4` (it sets the version and variant bits of random bits)
/// and its hyphenated lower-case `Display` give; the random digits are left
/// unsaid.
#[verifier::external_body]
fn new_entry_id() -> (r: String)
    ensures
        is_uuid_v4_text(r@),
{
    uuid::Uuid::new_v4().to_string()
}

/// The seconds since the Unix epoch, as the system clock gives them
/// (`SystemTime::now().duration_since(UNIX_EPOCH)`, zero before the epoch).
/// Nothing is stated of the value: it is the clock's.
#[verifier::external_body]
fn system_time_secs() -> (r: u64) {
    std::time::SystemTime::now().duration_since(std::time::UNIX_EPOCH).unwrap_or_default().as_secs()
}

/// The current time as decimal Unix seconds.
pub fn unix_timestamp() -> (r: String)
    ensures
        exists|t: u64| r@ == decimal(t as nat),
{
    let t = system_time_secs();
    u64_to_string(t)
}

/// The source tag of chunk `i` of a document of `n` chunks from `source`:
/// `source` itself for a single chunk, `source:chunk-<i>` otherwise.
pub open spec fn spec_chunk_source(source: Seq<char>, n: nat, i: nat) -> Seq<char> {
    if n == 1 {
        source
    } else {
        source + ":chunk-"@ + decimal(i)
    }
}

/// The entries that store the chunks of a note or file: chunk `i` becomes an
/// entry with a fresh identifier, the source tag of [`spec_chunk_source`],
/// role `note`, the document's title and the creation time, and no
/// project.
pub fn note_entries(chunks: Vec<String>, source: &str, title: &str, created_at: &str) -> (res:
    Vec<MemoryEntry>)
    ensures
        res@.len() == chunks@.len(),
        forall|i: int|
            0 <= i < res@.len() ==> {
                &&& is_uuid_v4_text((#[trigger] res@[i]).id@)
                &&& res@[i].source@ == spec_chunk_source(source@, chunks@.len(), i as nat)
                &&& res@[i].role@ == "note"@
                &&& res@[i].title@ == title@
                &&& res@[i].content == chunks@[i]
                &&& res@[i].created_at@ == created_at@
                &&& res@[i].project@.len() == 0
            },
{
    let n = chunks.len();
    let mut res: Vec<MemoryEntry> = Vec::new();
    let mut i: usize = 0;
    while i < n
        invariant
            0 <= i <= n,
            n == chunks@.len(),
            res@.len() == i,
            forall|j: int|
                0 <= j < i ==> {
                    &&& is_uuid_v4_text((#[trigger] res@[j]).id@)
                    &&& res@[j].source@ == spec_chunk_source(source@, n as nat, j as nat)
                    &&& res@[j].role@ == "note"@
                    &&& res@[j].title@ == title@
                    &&& res@[j].content == chunks@[j]
                    &&& res@[j].created_at@ == created_at@
                    &&& res@[j].project@.len() == 0
                },
        decreases n - i,
    {
        let chunk_source = if n == 1 {
            String::from_str(source)
        } else {
            let idx = u64_to_string(i as u64);
            concat3(source, ":chunk-", idx.as_str())
        };
        res.push(
            MemoryEntry {
                id: new_entry_id(),
                source: chunk_source,
                role: String::from_str("note"),
                title: String::from_str(title),
                content: chunks[i].clone(),
                created_at: String::from_str(created_at),
                project: String::new(),
            },
        );
        i += 1;
    }
    res
}

/// What the note file holds before the user writes in it: two comment
/// lines that explain it, and an empty line.
pub open spec fn spec_note_template() -> Seq<char> {
    "# Enter the content you want to memorize.\n# Lines beginning with '#' are ignored.\n\n"@
}

/// What the note file holds before the user writes in it (see
/// [`spec_note_template`]).
pub fn note_template() -> (r: String)
    ensures
        r@ == spec_note_template(),
{
    String::from_str(
        "# Enter the content you want to memorize.\n# Lines beginning with '#' are ignored.\n\n",
    )
}

/// A document to memorize: its content, the tag of where it came from, and
/// its title.
#[derive(Debug)]
pub struct NoteInput {
    pub content: String,
    pub source: String,
    pub title: String,
}

/// The message of a note with no content.
pub open spec fn spec_empty_note_message() -> Seq<char> {
    "No content provided"@
}

/// The note that the user wrote in the edited note file `raw`: its text
/// without the lines that begin with `#`, trimmed; source
/// `interactive:<fresh identifier>`; title `interactive note`. An error of
/// kind `EmptyInput` when the text is empty.
pub fn interactive_note(raw: &str) -> (res: Result<NoteInput, TheyaError>)
    ensures
        spec_user_text(raw@, "#"@).len() == 0 ==> (res matches Err(e) && e.kind
            == ErrorKind::EmptyInput && e.msg@ == spec_empty_note_message()),
        spec_user_text(raw@, "#"@).len() > 0 ==> (res matches Ok(n) && {
            &&& n.content@ == spec_user_text(raw@, "#"@)
            &&& n.source@.len() == 48
            &&& n.source@.take(12) == "interactive:"@
            &&& is_uuid_v4_text(n.source@.skip(12))
            &&& n.title@ == "interactive note"@
        }),
{
    let content = user_text(raw, "#");
    if content.as_str().is_empty() {
        return Err(TheyaError::new(ErrorKind::EmptyInput, String::from_str("No content provided")));
    }
    let id = new_entry_id();
    let source = concat("interactive:", id.as_str());
    proof {
        reveal_strlit("interactive:");
        assert(source@.take(12) == "interactive:"@);
        assert(source@.skip(12) == id@);
    }
    Ok(NoteInput { content, source, title: String::from_str("interactive note") })
}

/// The parts of a path that name something: the pieces between `/` that
/// are neither empty nor `.`.
pub open spec fn named_parts(parts: Seq<Seq<char>>) -> Seq<Seq<char>>
    decreases parts.len(),
{
    if parts.len() == 0 {
        seq![]
    } else {
        let rest = named_parts(parts.drop_last());
        if parts.last() == "."@ {
            rest
        } else {
            rest.push(parts.last())
        }
    }
}

/// The last component of the path `p` when it is a name (`Path::file_name`
/// on Unix): none for a path without components, for `/`, and for a path
/// that ends in `..`.
pub open spec fn spec_file_name(p: Seq<char>) -> Option<Seq<char>> {
    let parts = named_parts(spec_split_nonempty(p, '/'));
    if parts.len() == 0 || parts.last() == ".."@ {
        None
    } else {
        Some(parts.last())
    }
}

/// The last component of the path `p` when it is a name (see
/// [`spec_file_name`]).
pub fn file_name(p: &str) -> (r: Option<String>)
    ensures
        opt_text(r) == spec_file_name(p@),
{
    let parts = split_nonempty(p, '/');
    let mut last: Option<String> = None;
    let mut i: usize = 0;
    let dot = String::from_str(".");
    let dots = String::from_str("..");
    while i < parts.len()
        invariant
            0 <= i <= parts.len(),
            dot@ == "."@,
            dots@ == ".."@,
            opt_text(last) == (if named_parts(views(parts@).take(i as int)).len() == 0 {
                None
            } else {
                Some(named_parts(views(parts@).take(i as int)).last())
            }),
        decreases parts.len() - i,
    {
        assert(views(parts@).take(i + 1).drop_last() == views(parts@).take(i as int));
        assert(views(parts@).take(i + 1).last() == parts@[i as int]@);
        if parts[i] != dot {
            last = Some(parts[i].clone());
        }
        i += 1;
    }
    assert(views(parts@).take(parts.len() as int) == views(parts@));
    match last {
        Some(name) => if name == dots {
            None
        } else {
            Some(name)
        },
        None => None,
    }
}

/// The text of an optional string.
pub open spec fn opt_text(s: Option<String>) -> Option<Seq<char>> {
    match s {
        Some(v) => Some(v@),
        None => None,
    }
}

/// The document of the file at the resolved path `abs_path`, holding
/// `content`: source `file:<path>`, and the file's name as title (the path
/// itself when it has no name).
pub fn file_note(abs_path: &str, content: String) -> (r: NoteInput)
    ensures
        r.content == content,
        r.source@ == "file:"@ + abs_path@,
        r.title@ == match spec_file_name(abs_path@) {
            Some(n) => n,
            None => abs_path@,
        },
{
    let title = match file_name(abs_path) {
        Some(n) => n,
        None => String::from_str(abs_path),
    };
    NoteInput { content, source: concat("file:", abs_path), title }
}

/// The error of an `add` with neither a file nor `--interactive`.
pub fn missing_note_source() -> (e: TheyaError)
    ensures
        e.kind == ErrorKind::Bug,
        e.msg@ == "Provide a file path or pass --interactive"@,
{
    TheyaError::bug("Provide a file path or pass --interactive")
}

/// The error of a file path that cannot be resolved, `reason` being what
/// the resolution failed with.
pub fn unresolved_path(file_path: &str, reason: &str) -> (e: TheyaError)
    ensures
        e.kind == ErrorKind::Bug,
        e.msg@ == "Cannot resolve path '"@ + file_path@ + "': "@ + reason@,
{
    let mut msg = concat3("Cannot resolve path '", file_path, "': ");
    msg.append(reason);
    TheyaError::new(ErrorKind::Bug, msg)
}

/// Where the memory store lives, below the home directory.
pub open spec fn spec_vector_db_path() -> Seq<char> {
    ".local/share/theya/knowledge_db"@
}

/// The directory of the memory store of the user whose home is `home`.
pub fn db_path(home: &str) -> (r: String)
    ensures
        r@ == home@ + "/"@ + spec_vector_db_path(),
{
    concat3(home, "/", ".local/share/theya/knowledge_db")
}

/// The memory entry for knowledge extracted from a session: none when the
/// trimmed knowledge is shorter than [`MIN_KNOWLEDGE_LEN`] bytes; else an
/// entry with a fresh identifier, source `copilot:<session>`, role
/// `knowledge`, title `Copilot session <first 8 bytes of the session>`, the
/// trimmed knowledge, the given creation time, and tagged with the
/// session's `project` (`host_type:owner/repo`).
pub fn knowledge_entry(session_id: &str, knowledge: &str, created_at: &str, project: &str) -> (res: Option<
    MemoryEntry,
>)
    requires
        byte_len(session_id@) <= 8 || vstd::utf8::is_char_boundary(session_id.spec_bytes(), 8),
    ensures
        match res {
            None => byte_len(trim(knowledge@)) < MIN_KNOWLEDGE_LEN,
            Some(e) => {
                &&& byte_len(trim(knowledge@)) >= MIN_KNOWLEDGE_LEN
                &&& is_uuid_v4_text(e.id@)
                &&& e.source@ == "copilot:"@ + session_id@
                &&& e.role@ == "knowledge"@
                &&& e.title@ == "Copilot session "@ + vstd::utf8::decode_utf8(
                    session_prefix_bytes(session_id.spec_bytes()),
                )
                &&& e.content@ == trim(knowledge@)
                &&& e.created_at@ == created_at@
                &&& e.project@ == project@
            },
        },
{
    let k = trim_str(knowledge);
    if k.as_str().len() < MIN_KNOWLEDGE_LEN {
        return None;
    }
    let prefix: &str = if session_id.len() <= 8 {
        session_id
    } else {
        session_id.split_at(8).0
    };
    proof {
        vstd::utf8::encode_utf8_decode_utf8(prefix@);
        vstd::utf8::encode_utf8_decode_utf8(session_id@);
        if byte_len(session_id@) <= 8 {
            assert(session_prefix_bytes(session_id.spec_bytes()) == session_id.spec_bytes());
        }
    }
    Some(
        MemoryEntry {
            id: new_entry_id(),
            source: concat("copilot:", session_id),
            role: String::from_str("knowledge"),
            title: concat("Copilot session ", prefix),
            content: k,
            created_at: String::from_str(created_at),
            project: String::from_str(project),
        },
    )
}

/// The length in bytes of the UTF-8 text of `s` (`str::len`).
pub open spec fn byte_len(s: Seq<char>) -> usize {
    vstd::utf8::encode_utf8(s).len() as usize
}

/// The first (at most) 8 bytes of a session identifier.
pub open spec fn session_prefix_bytes(b: Seq<u8>) -> Seq<u8> {
    if (b.len() as usize) <= 8 {
        b
    } else {
        b.subrange(0, 8)
    }
}

/// The title column of a listing: the title itself when it has at most 40
/// bytes, else its first 37 bytes and `…`.
pub fn list_title(title: &str) -> (res: String)
    requires
        byte_len(title@) <= 40 || vstd::utf8::is_char_boundary(title.spec_bytes(), 37),
    ensures
        byte_len(title@) <= 40 ==> res@ == title@,
        byte_len(title@) > 40 ==> res@ == vstd::utf8::decode_utf8(
            title.spec_bytes().subrange(0, 37),
        ) + "…"@,
{
    if title.len() > 40 {
        let head = title.split_at(37).0;
        proof {
            vstd::utf8::encode_utf8_decode_utf8(head@);
            assert(head.spec_bytes() == title.spec_bytes().subrange(0, 37));
        }
        concat(head, "…")
    } else {
        String::from_str(title)
    }
}

/// The value stored under `key` in the metadata columns: that of the first
/// row (of those that have both a key and a value) whose key is `key`.
pub fn metadata_value(keys: &Vec<String>, values: &Vec<String>, key: &str) -> (res: Option<
    String,
>)
    ensures
        match res {
            Some(v) => exists|i: int|
                0 <= i < keys@.len() && i < values@.len() && keys@[i]@ == key@ && v
                    == values@[i] && forall|j: int| 0 <= j < i ==> keys@[j]@ != key@,
            None => forall|i: int|
                0 <= i < keys@.len() && i < values@.len() ==> keys@[i]@ != key@,
        },
{
    let k = String::from_str(key);
    let mut i: usize = 0;
    while i < keys.len() && i < values.len()
        invariant
            0 <= i <= keys.len(),
            i <= values.len(),
            k@ == key@,
            forall|j: int| 0 <= j < i ==> keys@[j]@ != key@,
        decreases keys.len() - i,
    {
        if keys[i] == k {
            return Some(values[i].clone());
        }
        i += 1;
    }
    None
}

/// The time of the last update, from what the metadata query gave: the
/// stored decimal value, or 0 when the query failed, nothing was stored or
/// the stored text is not a number.
pub fn epoch_from_metadata(stored: Result<Option<String>, TheyaError>) -> (res: u64)
    ensures
        res == match stored {
            Ok(Some(s)) => match crate::text::spec_parse_u64(s@) {
                Some(v) => v,
                None => 0,
            },
            _ => 0,
        },
{
    match stored {
        Ok(Some(s)) => match crate::text::parse_u64(s.as_str()) {
            Some(v) => v,
            None => 0,
        },
        _ => 0,
    }
}

/// Whether the stored vectors must be recalculated before running the
/// memory subcommand `subcommand`: the store records an embedding model
/// other than the configured one, and the subcommand is not `recalc`
/// itself (which recalculates them anyway).
pub fn needs_recalc(subcommand: &str, stored_model: Option<&str>, model: &str) -> (res: bool)
    ensures
        res == (subcommand@ != "recalc"@
            && match stored_model {
            Some(m) => m@ != model@,
            None => false,
        }),
{
    let sub = String::from_str(subcommand);
    if sub == String::from_str("recalc") {
        return false;
    }
    match stored_model {
        Some(m) => String::from_str(m) != String::from_str(model),
        None => false,
    }
}

/// Whether an answer to a yes/no prompt is yes: once trimmed, it is `y` or
/// `Y`.
pub fn confirms(answer: &str) -> (res: bool)
    ensures
        res == (trim(answer@) == "y"@ || trim(answer@) == "Y"@),
{
    let t = trim_str(answer);
    t == String::from_str("y") || t == String::from_str("Y")
}

// ---------------------------------------------------------------------------
// Copilot histories
// ---------------------------------------------------------------------------

/// Where Copilot keeps its sessions, below the home directory.
pub open spec fn spec_copilot_session_dir() -> Seq<char> {
    ".copilot/session-state"@
}

/// One message of an agent conversation.
#[derive(Debug)]
pub struct AgentHistory {
    pub role: String,
    pub content: String,
    pub timestamp: String,
}

/// What a message holds, as plain text: role, content, timestamp.
pub open spec fn agent_view(h: AgentHistory) -> (Seq<char>, Seq<char>, Seq<char>) {
    (h.role@, h.content@, h.timestamp@)
}

/// The views of a list of messages.
pub open spec fn agent_views(v: Seq<AgentHistory>) -> Seq<(Seq<char>, Seq<char>, Seq<char>)> {
    Seq::new(v.len(), |i: int| agent_view(v[i]))
}

/// The conversation of one Copilot session.
#[derive(Debug)]
pub struct CopilotHistory {
    pub session_id: String,
    pub messages: Vec<AgentHistory>,
    pub project: String,
}

/// The latest non-empty timestamp among `ms` in string order, or the empty
/// text when there is none.
pub open spec fn spec_max_timestamp(ms: Seq<AgentHistory>) -> Seq<char>
    decreases ms.len(),
{
    if ms.len() == 0 {
        seq![]
    } else {
        let m = spec_max_timestamp(ms.drop_last());
        let t = ms.last().timestamp@;
        if t.len() > 0 && crate::text::lex_lt(m, t) {
            t
        } else {
            m
        }
    }
}

/// The label of a role in a formatted conversation.
pub open spec fn role_label(role: Seq<char>) -> Seq<char> {
    if role == "user"@ {
        "User"@
    } else {
        "Assistant"@
    }
}

/// A conversation as text: `<label>: <content>` for each message, separated
/// by blank lines.
pub open spec fn spec_conversation(ms: Seq<AgentHistory>) -> Seq<char> {
    spec_join(
        Seq::new(ms.len(), |i: int| role_label(ms[i].role@) + ": "@ + ms[i].content@),
        "\n\n"@,
    )
}

impl CopilotHistory {
    /// The latest message timestamp, or the empty text when no message
    /// has one.
    pub fn max_timestamp(&self) -> (r: String)
        ensures
            r@ == spec_max_timestamp(self.messages@),
    {
        let mut best = String::new();
        let mut i: usize = 0;
        while i < self.messages.len()
            invariant
                0 <= i <= self.messages.len(),
                best@ == spec_max_timestamp(self.messages@.take(i as int)),
            decreases self.messages.len() - i,
        {
            assert(self.messages@.take(i + 1).drop_last() == self.messages@.take(i as int));
            let t = &self.messages[i].timestamp;
            if !t.as_str().is_empty() && crate::text::str_lt(best.as_str(), t.as_str()) {
                best = t.clone();
            }
            i += 1;
        }
        assert(self.messages@.take(self.messages.len() as int) == self.messages@);
        best
    }

    /// The conversation as `"User: …\n\nAssistant: …"` text.
    pub fn format_conversation(&self) -> (r: String)
        ensures
            r@ == spec_conversation(self.messages@),
    {
        let ghost ms = self.messages@;
        let ghost want = Seq::new(ms.len(), |i: int| role_label(ms[i].role@) + ": "@ + ms[i].content@);
        let user = String::from_str("user");
        let mut parts: Vec<String> = Vec::new();
        let mut i: usize = 0;
        while i < self.messages.len()
            invariant
                0 <= i <= self.messages.len(),
                ms == self.messages@,
                user@ == "user"@,
                want == Seq::new(ms.len(), |i: int| role_label(ms[i].role@) + ": "@ + ms[i].content@),
                views(parts@) == want.take(i as int),
            decreases self.messages.len() - i,
        {
            let m = &self.messages[i];
            let label = if m.role == user {
                String::from_str("User")
            } else {
                String::from_str("Assistant")
            };
            let line = concat3(label.as_str(), ": ", m.content.as_str());
            let ghost before = views(parts@);
            parts.push(line);
            assert(views(parts@) == before.push(line@));
            assert(want.take(i + 1) == want.take(i as int).push(want[i as int]));
            i += 1;
        }
        assert(want.take(ms.len() as int) == want);
        join(&parts, "\n\n")
    }
}

/// The latest timestamp is one of the messages' non-empty timestamps, and
/// no non-empty timestamp comes after it; it is empty only when no message
/// has a timestamp.
pub proof fn lemma_max_timestamp_is_latest(ms: Seq<AgentHistory>)
    ensures
        spec_max_timestamp(ms).len() == 0 <==> forall|i: int|
            0 <= i < ms.len() ==> (#[trigger] ms[i]).timestamp@.len() == 0,
        spec_max_timestamp(ms).len() > 0 ==> exists|i: int|
            0 <= i < ms.len() && (#[trigger] ms[i]).timestamp@ == spec_max_timestamp(ms),
        forall|i: int|
            0 <= i < ms.len() && (#[trigger] ms[i]).timestamp@.len() > 0 ==> !crate::text::lex_lt(
                spec_max_timestamp(ms),
                ms[i].timestamp@,
            ),
    decreases ms.len(),
{
    if ms.len() > 0 {
        let prev = ms.drop_last();
        lemma_max_timestamp_is_latest(prev);
        let m = spec_max_timestamp(prev);
        let t = ms.last().timestamp@;
        let r = spec_max_timestamp(ms);
        assert forall|i: int| 0 <= i < ms.len() - 1 implies ms[i] == prev[i] by {}
        crate::text::lemma_lex_total(m, t);
        crate::text::lemma_lex_total(r, r);
        if t.len() > 0 && crate::text::lex_lt(m, t) {
            assert forall|i: int|
                0 <= i < ms.len() && (#[trigger] ms[i]).timestamp@.len() > 0 implies !crate::text::lex_lt(
                r,
                ms[i].timestamp@,
            ) by {
                if i < ms.len() - 1 {
                    let x = ms[i].timestamp@;
                    assert(prev[i] == ms[i]);
                    crate::text::lemma_lex_total(m, x);
                    crate::text::lemma_lex_total(t, x);
                    if crate::text::lex_lt(t, x) {
                        if x == m {
                        } else {
                            crate::text::lemma_lex_transitive(x, m, t);
                            crate::text::lemma_lex_transitive(t, x, t);
                        }
                    }
                }
            }
            assert(ms[ms.len() - 1].timestamp@ == r);
        } else {
            if m.len() > 0 {
                let k = choose|i: int| 0 <= i < prev.len() && (#[trigger] prev[i]).timestamp@ == m;
                assert(ms[k] == prev[k]);
            }
            assert forall|i: int|
                0 <= i < ms.len() && (#[trigger] ms[i]).timestamp@.len() > 0 implies !crate::text::lex_lt(
                r,
                ms[i].timestamp@,
            ) by {
                if i < ms.len() - 1 {
                    assert(prev[i] == ms[i]);
                }
            }
            if m.len() == 0 && t.len() > 0 {
                assert(crate::text::lex_lt(m, t));
            }
        }
    }
}

/// What one line of Copilot's `events.jsonl` contributes (`None` for a line
/// that did not parse as JSON): a user message with non-empty trimmed
/// content, or an assistant message with non-empty trimmed content that no
/// tool call started; as (role, trimmed content, timestamp or empty).
pub open spec fn spec_event_message(ev: Option<JsonValue>) -> Option<
    (Seq<char>, Seq<char>, Seq<char>),
> {
    match ev {
        None => None,
        Some(v) => match spec_str_member(v, "type"@) {
            None => None,
            Some(kind) => {
                let ts = match spec_str_member(v, "timestamp"@) {
                    Some(t) => t,
                    None => Seq::<char>::empty(),
                };
                let data = spec_get(v, "data"@);
                let content = trim(
                    match data {
                        Some(d) => match spec_str_member(d, "content"@) {
                            Some(c) => c,
                            None => Seq::<char>::empty(),
                        },
                        None => Seq::<char>::empty(),
                    },
                );
                let no_parent = match data {
                    Some(d) => spec_member_is_null(d, "parentToolCallId"@),
                    None => true,
                };
                if kind == "user.message"@ && content.len() > 0 {
                    Some(("user"@, content, ts))
                } else if kind == "assistant.message"@ && no_parent && content.len() > 0 {
                    Some(("assistant"@, content, ts))
                } else {
                    None
                }
            },
        },
    }
}

/// The messages of a list of event lines, in order.
pub open spec fn spec_copilot_messages(evs: Seq<Option<JsonValue>>) -> Seq<
    (Seq<char>, Seq<char>, Seq<char>),
>
    decreases evs.len(),
{
    if evs.len() == 0 {
        seq![]
    } else {
        let rest = spec_copilot_messages(evs.drop_last());
        match spec_event_message(evs.last()) {
            Some(m) => rest.push(m),
            None => rest,
        }
    }
}

fn event_message(ev: &Option<JsonValue>) -> (res: Option<AgentHistory>)
    ensures
        match res {
            Some(h) => spec_event_message(*ev) == Some(agent_view(h)),
            None => spec_event_message(*ev) is None,
        },
{
    let v = match ev {
        Some(v) => v,
        None => return None,
    };
    let kind = match v.str_member("type") {
        Some(k) => k,
        None => return None,
    };
    let ts = match v.str_member("timestamp") {
        Some(t) => t,
        None => String::new(),
    };
    let data = v.get("data");
    let raw = match data {
        Some(d) => match d.str_member("content") {
            Some(c) => c,
            None => String::new(),
        },
        None => String::new(),
    };
    let content = trim_str(raw.as_str());
    let no_parent = match data {
        Some(d) => d.member_is_null("parentToolCallId"),
        None => true,
    };
    let empty = content.as_str().is_empty();
    if kind == String::from_str("user.message") && !empty {
        Some(AgentHistory { role: String::from_str("user"), content, timestamp: ts })
    } else if kind == String::from_str("assistant.message") && no_parent && !empty {
        Some(AgentHistory { role: String::from_str("assistant"), content, timestamp: ts })
    } else {
        None
    }
}

/// The user and assistant messages of a Copilot `events.jsonl` file, given
/// its lines as parsed JSON (`None` for a line that is not JSON).
pub fn parse_copilot_events(events: &Vec<Option<JsonValue>>) -> (res: Vec<AgentHistory>)
    ensures
        agent_views(res@) == spec_copilot_messages(events@),
{
    let mut res: Vec<AgentHistory> = Vec::new();
    let mut i: usize = 0;
    while i < events.len()
        invariant
            0 <= i <= events.len(),
            agent_views(res@) == spec_copilot_messages(events@.take(i as int)),
        decreases events.len() - i,
    {
        assert(events@.take(i + 1).drop_last() == events@.take(i as int));
        assert(events@.take(i + 1).last() == events@[i as int]);
        let ghost before = res@;
        match event_message(&events[i]) {
            Some(h) => {
                res.push(h);
                assert(agent_views(res@) == agent_views(before).push(agent_view(h)));
            },
            None => {},
        }
        i += 1;
    }
    assert(events@.take(events.len() as int) == events@);
    res
}

/// The lines of `content`, each as `serde_json` parses it.
pub open spec fn parsed_lines(content: Seq<char>) -> Seq<Option<JsonValue>> {
    Seq::new(spec_lines(content).len(), |i: int| serde_json_parse(spec_lines(content)[i]))
}

/// The user and assistant messages of the Copilot `events.jsonl` text
/// `content`: its lines parsed as JSON (see [`crate::json::parse_json`]),
/// then read as [`parse_copilot_events`] reads them.
pub fn parse_copilot_log(content: &str) -> (res: Vec<AgentHistory>)
    ensures
        agent_views(res@) == spec_copilot_messages(parsed_lines(content@)),
{
    let ls = lines(content);
    let mut events: Vec<Option<JsonValue>> = Vec::new();
    let mut i: usize = 0;
    while i < ls.len()
        invariant
            0 <= i <= ls.len(),
            views(ls@) == spec_lines(content@),
            events@ == parsed_lines(content@).take(i as int),
        decreases ls.len() - i,
    {
        let ghost before = events@;
        events.push(parse_json(ls[i].as_str()));
        assert(events@ =~= parsed_lines(content@).take(i + 1)) by {
            assert(views(ls@)[i as int] == ls@[i as int]@);
        }
        i += 1;
    }
    assert(events@ =~= parsed_lines(content@));
    parse_copilot_events(&events)
}

/// The project of a session, from the `host_type` and `repository` fields
/// of its `workspace.yaml`: `host_type:repository`, or the error that names
/// the missing field.
pub fn workspace_project(host_type: Option<&str>, repository: Option<&str>) -> (res: Result<
    String,
    TheyaError,
>)
    ensures
        match (host_type, repository) {
            (Some(h), Some(r)) => res matches Ok(p) && p@ == h@ + ":"@ + r@,
            (None, _) => res matches Err(e) && e.kind == ErrorKind::Bug && e.msg@
                == "Missing host_type in workspace.yaml"@,
            (Some(_), None) => res matches Err(e) && e.kind == ErrorKind::Bug && e.msg@
                == "Missing repository in workspace.yaml"@,
        },
{
    let h = match host_type {
        Some(h) => h,
        None => return Err(TheyaError::bug("Missing host_type in workspace.yaml")),
    };
    let r = match repository {
        Some(r) => r,
        None => return Err(TheyaError::bug("Missing repository in workspace.yaml")),
    };
    Ok(concat3(h, ":", r))
}

/// Whether a session directory is read: its modification time is unknown,
/// or after `since_ts`.
pub fn session_is_new(mtime: Option<u64>, since_ts: u64) -> (res: bool)
    ensures
        res == match mtime {
            Some(m) => m > since_ts,
            None => true,
        },
{
    match mtime {
        Some(m) => m > since_ts,
        None => true,
    }
}

/// What `serde_yaml` gives for the top-level string field `key` of the
/// YAML document `text` (see [`yaml_str_field`]): the text of the parse
/// error, or the field's string, none when it is absent or no string.
pub uninterp spec fn serde_yaml_str_field(text: Seq<char>, key: Seq<char>) -> Result<
    Option<Seq<char>>,
    Seq<char>,
>;

/// The string field `key` of the YAML document `text`:
/// `serde_yaml::from_str::<serde_yaml::Value>(text)`, then `value[key]` and
/// `as_str`; the parse error's text when the document does not parse. The
/// contract names the result and says no more of it: the parse is
/// `serde_yaml`'s.
#[verifier::external_body]
fn yaml_str_field(text: &str, key: &str) -> (r: Result<Option<String>, String>)
    ensures
        match r {
            Ok(v) => serde_yaml_str_field(text@, key@) == Ok::<Option<Seq<char>>, Seq<char>>(
                opt_text(v),
            ),
            Err(m) => serde_yaml_str_field(text@, key@) == Err::<Option<Seq<char>>, Seq<char>>(
                m@,
            ),
        },
{
    match serde_yaml::from_str::<serde_yaml::Value>(text) {
        Ok(v) => Ok(v[key].as_str().map(|s| s.to_string())),
        Err(e) => Err(e.to_string()),
    }
}

/// The message of a workspace file that does not parse.
pub open spec fn spec_workspace_parse_error(m: Seq<char>) -> Seq<char> {
    "Failed to parse workspace.yaml: "@ + m
}

/// The project of a session, from the text of its `workspace.yaml`:
/// `<host_type>:<repository>`; an error of kind `Bug` when the text does
/// not parse or a field is missing.
pub fn read_project_from_workspace(content: &str) -> (res: Result<String, TheyaError>)
    ensures
        match serde_yaml_str_field(content@, "host_type"@) {
            Err(m) => res matches Err(e) && e.kind == ErrorKind::Bug && e.msg@
                == spec_workspace_parse_error(m),
            Ok(None) => res matches Err(e) && e.kind == ErrorKind::Bug && e.msg@
                == "Missing host_type in workspace.yaml"@,
            Ok(Some(h)) => match serde_yaml_str_field(content@, "repository"@) {
                Err(m) => res matches Err(e) && e.kind == ErrorKind::Bug && e.msg@
                    == spec_workspace_parse_error(m),
                Ok(None) => res matches Err(e) && e.kind == ErrorKind::Bug && e.msg@
                    == "Missing repository in workspace.yaml"@,
                Ok(Some(r)) => res matches Ok(p) && p@ == h + ":"@ + r,
            },
        },
{
    let host = match yaml_str_field(content, "host_type") {
        Ok(h) => h,
        Err(m) => {
            return Err(TheyaError::new(ErrorKind::Bug, concat("Failed to parse workspace.yaml: ", m.as_str())));
        },
    };
    let host = match host {
        Some(h) => h,
        None => return Err(TheyaError::bug("Missing host_type in workspace.yaml")),
    };
    let repository = match yaml_str_field(content, "repository") {
        Ok(r) => r,
        Err(m) => {
            return Err(TheyaError::new(ErrorKind::Bug, concat("Failed to parse workspace.yaml: ", m.as_str())));
        },
    };
    match repository {
        Some(r) => workspace_project(Some(host.as_str()), Some(r.as_str())),
        None => workspace_project(Some(host.as_str()), None),
    }
}

/// Access to the Copilot sessions below a home directory.
#[derive(Debug)]
pub struct CopilotHistoryStore {
    pub home_dir: String,
}

impl CopilotHistoryStore {
    /// The sessions below `home_dir`.
    pub fn new(home_dir: String) -> (r: Self)
        ensures
            r.home_dir == home_dir,
    {
        CopilotHistoryStore { home_dir }
    }

    /// The directory of the sessions.
    pub fn session_dir(&self) -> (r: String)
        ensures
            r@ == self.home_dir@ + "/"@ + spec_copilot_session_dir(),
    {
        concat3(self.home_dir.as_str(), "/", ".copilot/session-state")
    }
}

/// The event log of session `session_id` in `session_dir`.
pub fn events_path(session_dir: &str, session_id: &str) -> (r: String)
    ensures
        r@ == session_dir@ + "/"@ + session_id@ + "/events.jsonl"@,
{
    let a = concat3(session_dir, "/", session_id);
    concat(a.as_str(), "/events.jsonl")
}

/// The workspace description of session `session_id` in `session_dir`.
pub fn workspace_path(session_dir: &str, session_id: &str) -> (r: String)
    ensures
        r@ == session_dir@ + "/"@ + session_id@ + "/workspace.yaml"@,
{
    let a = concat3(session_dir, "/", session_id);
    concat(a.as_str(), "/workspace.yaml")
}

/// The error of a home without Copilot sessions.
pub fn missing_session_dir(session_dir: &str) -> (e: TheyaError)
    ensures
        e.kind == ErrorKind::Bug,
        e.msg@ == "Copilot session directory not found: "@ + session_dir@,
{
    TheyaError::new(ErrorKind::Bug, concat("Copilot session directory not found: ", session_dir))
}

/// Where the reading of one session stands.
#[derive(Debug)]
pub enum SessionStep {
    /// The entry is no session to read.
    Skip,
    /// Read the event log at `path` (nothing when it does not exist); hand
    /// the outcome to [`on_events`].
    ReadEvents { path: String, session_id: String },
    /// Read the workspace description at `path`; hand the outcome to
    /// [`on_workspace`].
    ReadWorkspace { path: String, session_id: String, messages: Vec<AgentHistory> },
}

/// The first step of reading the directory entry `session_id` of
/// `session_dir`: a directory (`is_dir`) modified after `since_ts` (or of
/// unknown modification time) is a session whose event log is read next;
/// any other entry is skipped.
pub fn visit_session(session_dir: &str, session_id: String, is_dir: bool, mtime: Option<u64>, since_ts: u64) -> (r: SessionStep)
    ensures
        !is_dir || !spec_session_is_new(mtime, since_ts) ==> r is Skip,
        is_dir && spec_session_is_new(mtime, since_ts) ==> (r matches SessionStep::ReadEvents {
            path,
            session_id: id,
        } && path@ == session_dir@ + "/"@ + session_id@ + "/events.jsonl"@ && id == session_id),
{
    if !is_dir || !session_is_new(mtime, since_ts) {
        return SessionStep::Skip;
    }
    let path = events_path(session_dir, session_id.as_str());
    SessionStep::ReadEvents { path, session_id }
}

/// Whether a session modified at `mtime` is newer than `since_ts`.
pub open spec fn spec_session_is_new(mtime: Option<u64>, since_ts: u64) -> bool {
    match mtime {
        Some(m) => m > since_ts,
        None => true,
    }
}

/// The step after the event log of `session_id` was read from
/// `session_dir`: the log's error when it could not be read; a skip when
/// there is no log or it holds no message; else the workspace description
/// is read next, with the messages of [`parse_copilot_log`].
pub fn on_events(
    session_dir: &str,
    session_id: String,
    content: Option<Result<String, TheyaError>>,
) -> (r: Result<SessionStep, TheyaError>)
    ensures
        match content {
            None => r matches Ok(SessionStep::Skip),
            Some(Err(e)) => r == Err::<SessionStep, TheyaError>(e),
            Some(Ok(c)) => if spec_copilot_messages(parsed_lines(c@)).len() == 0 {
                r matches Ok(SessionStep::Skip)
            } else {
                r matches Ok(SessionStep::ReadWorkspace { path, session_id: id, messages })
                    && path@ == session_dir@ + "/"@ + session_id@ + "/workspace.yaml"@ && id
                    == session_id && agent_views(messages@) == spec_copilot_messages(
                    parsed_lines(c@),
                )
            },
        },
{
    match content {
        None => Ok(SessionStep::Skip),
        Some(Err(e)) => Err(e),
        Some(Ok(c)) => {
            let messages = parse_copilot_log(c.as_str());
            if messages.len() == 0 {
                return Ok(SessionStep::Skip);
            }
            let path = workspace_path(session_dir, session_id.as_str());
            Ok(SessionStep::ReadWorkspace { path, session_id, messages })
        },
    }
}

/// The history of `session_id` with `messages`, once its workspace
/// description was read (`content`): the project of
/// [`read_project_from_workspace`], or the empty project when the
/// description could not be read or names no project.
pub fn on_workspace(
    session_id: String,
    messages: Vec<AgentHistory>,
    content: Result<String, TheyaError>,
) -> (r: CopilotHistory)
    ensures
        r.session_id == session_id,
        r.messages == messages,
        match content {
            Err(_) => r.project@.len() == 0,
            Ok(c) => match (serde_yaml_str_field(c@, "host_type"@), serde_yaml_str_field(c@, "repository"@)) {
                (Ok(Some(h)), Ok(Some(p))) => r.project@ == h + ":"@ + p,
                _ => r.project@.len() == 0,
            },
        },
{
    let project = match content {
        Err(_) => String::new(),
        Ok(c) => match read_project_from_workspace(c.as_str()) {
            Ok(p) => p,
            Err(_) => String::new(),
        },
    };
    CopilotHistory { session_id, messages, project }
}

/// The system prompt of knowledge extraction.
pub open spec fn spec_extraction_guideline() -> Seq<char> {
    "You are a knowledge extraction assistant. Analyze conversations and extract key facts, technical decisions, insights, and learnings worth preserving as long-term memory. Be concise and structured. If there is nothing worth preserving, reply with an empty response."@
}

/// The system prompt of knowledge extraction.
pub fn extraction_guideline() -> (r: String)
    ensures
        r@ == spec_extraction_guideline(),
{
    String::from_str(
        "You are a knowledge extraction assistant. Analyze conversations and extract key facts, technical decisions, insights, and learnings worth preserving as long-term memory. Be concise and structured. If there is nothing worth preserving, reply with an empty response.",
    )
}

/// The request that extracts knowledge from a session: the extraction
/// instruction, a blank line, and the formatted conversation.
pub fn extraction_prompt(history: &CopilotHistory) -> (r: String)
    ensures
        r@ == "Extract the important knowledge from this conversation that should be stored as long-term memory for future reference:"@
            + "\n\n"@ + spec_conversation(history.messages@),
{
    let conv = history.format_conversation();
    concat3(
        "Extract the important knowledge from this conversation that should be stored as long-term memory for future reference:",
        "\n\n",
        conv.as_str(),
    )
}

} // verus!
