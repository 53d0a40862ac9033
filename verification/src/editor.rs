//! The text files that the user edits: the marker of the lines that the
//! program writes for the user, and how the user's own text is taken back.
use vstd::prelude::*;

use crate::text::{join, lines, spec_join, spec_lines, spec_starts_with, starts_with, trim, trim_str, views};

verus! {

/// The editor used when `EDITOR` is not set.
pub const DEFAULT_EDITOR: &'static str = "vim";

/// The start of a line that the program writes for the user.
pub const COMMENT_PREFIX: &'static str = "<!-- Theya: ";

/// The end of a line that the program writes for the user.
pub const COMMENT_POSTFIX: &'static str = " -->";

/// The lines of `ls` that do not begin with `prefix`, in order.
pub open spec fn uncommented(ls: Seq<Seq<char>>, prefix: Seq<char>) -> Seq<Seq<char>>
    decreases ls.len(),
{
    if ls.len() == 0 {
        seq![]
    } else {
        let rest = uncommented(ls.drop_last(), prefix);
        if spec_starts_with(ls.last(), prefix) {
            rest
        } else {
            rest.push(ls.last())
        }
    }
}

/// The user's text in `raw`: the lines that do not begin with `prefix`,
/// joined by newlines, without surrounding whitespace.
pub open spec fn spec_user_text(raw: Seq<char>, prefix: Seq<char>) -> Seq<char> {
    trim(spec_join(uncommented(spec_lines(raw), prefix), "\n"@))
}

/// The user's text in `raw` (see [`spec_user_text`]).
pub fn user_text(raw: &str, prefix: &str) -> (r: String)
    ensures
        r@ == spec_user_text(raw@, prefix@),
{
    let ls = lines(raw);
    let mut kept: Vec<String> = Vec::new();
    let mut i: usize = 0;
    while i < ls.len()
        invariant
            0 <= i <= ls.len(),
            views(kept@) == uncommented(views(ls@).take(i as int), prefix@),
        decreases ls.len() - i,
    {
        assert(views(ls@).take(i + 1).drop_last() == views(ls@).take(i as int));
        assert(views(ls@).take(i + 1).last() == ls@[i as int]@);
        if !starts_with(ls[i].as_str(), prefix) {
            let ghost before = views(kept@);
            kept.push(ls[i].clone());
            assert(views(kept@) == before.push(ls@[i as int]@));
        }
        i += 1;
    }
    assert(views(ls@).take(ls.len() as int) == views(ls@));
    let joined = join(&kept, "\n");
    trim_str(joined.as_str())
}

/// The user's text in an edited file whose program lines begin with
/// [`COMMENT_PREFIX`].
pub fn editor_text(raw: &str) -> (r: String)
    ensures
        r@ == spec_user_text(raw@, COMMENT_PREFIX@),
{
    user_text(raw, COMMENT_PREFIX)
}

} // verus!
