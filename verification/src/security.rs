//! Whether a path lies within the working directory: the path is made
//! absolute against the working directory, and its nearest ancestor (or
//! itself) that resolves is compared with the resolved working directory.
//! The caller resolves paths; every decision is made here, on a Unix model
//! of paths: a path is absolute when it begins with `/`, and its components
//! are the pieces between `/` that are not empty, `.` being dropped but for
//! a leading one of a relative path.
use vstd::prelude::*;

use crate::error::TheyaError;
use crate::memory::named_parts;
use crate::text::{concat, join, spec_join, spec_split_nonempty, split_nonempty, starts_with, views};

verus! {

/// Whether `p` is an absolute path.
pub open spec fn is_absolute(p: Seq<char>) -> bool {
    p.len() > 0 && p[0] == '/'
}

/// The components of `p` after its root (`Path::components`, without the
/// root).
pub open spec fn path_body(p: Seq<char>) -> Seq<Seq<char>> {
    let parts = spec_split_nonempty(p, '/');
    if !is_absolute(p) && parts.len() > 0 && parts[0] == "."@ {
        seq!["."@] + named_parts(parts.drop_first())
    } else {
        named_parts(parts)
    }
}

/// The path of the components `parts`, after a root when `absolute`.
pub open spec fn render_path(absolute: bool, parts: Seq<Seq<char>>) -> Seq<char> {
    (if absolute {
        "/"@
    } else {
        Seq::<char>::empty()
    }) + spec_join(parts, "/"@)
}

/// `p` appended to `base` (`Path::join`): `p` itself when it is absolute,
/// else `base`, a separator when `base` is not empty and does not end in
/// one, and `p`.
pub open spec fn spec_join_path(base: Seq<char>, p: Seq<char>) -> Seq<char> {
    if is_absolute(p) {
        p
    } else if base.len() > 0 && base.last() != '/' {
        base + "/"@ + p
    } else {
        base + p
    }
}

/// Whether the components of `p` begin with those of `base`, both being
/// absolute or both relative (`Path::starts_with`).
pub open spec fn spec_path_starts_with(p: Seq<char>, base: Seq<char>) -> bool {
    let a = path_body(p);
    let b = path_body(base);
    &&& is_absolute(p) == is_absolute(base)
    &&& b.len() <= a.len()
    &&& a.take(b.len() as int) == b
}

/// Whether `p` is an absolute path.
pub fn is_absolute_path(p: &str) -> (r: bool)
    ensures
        r == is_absolute(p@),
{
    let cs = crate::text::chars_of(p);
    cs.len() > 0 && cs[0] == '/'
}

/// The components of `p` after its root (see [`path_body`]).
pub fn components(p: &str) -> (r: Vec<String>)
    ensures
        views(r@) == path_body(p@),
{
    let parts = split_nonempty(p, '/');
    let absolute = is_absolute_path(p);
    let dot = String::from_str(".");
    let lead = !absolute && parts.len() > 0 && parts[0] == dot;
    let mut r: Vec<String> = Vec::new();
    let first: usize = if lead {
        r.push(String::from_str("."));
        1
    } else {
        0
    };
    let ghost base = views(r@);
    let ghost rest = views(parts@).skip(first as int);
    assert(rest.take(0) =~= Seq::<Seq<char>>::empty());
    assert(base + named_parts(rest.take(0)) =~= base);
    let mut i: usize = first;
    while i < parts.len()
        invariant
            first <= i <= parts.len(),
            dot@ == "."@,
            rest == views(parts@).skip(first as int),
            views(r@) == base + named_parts(rest.take(i - first)),
        decreases parts.len() - i,
    {
        assert(rest.take(i - first + 1).drop_last() == rest.take(i - first));
        assert(rest.take(i - first + 1).last() == parts@[i as int]@);
        if parts[i] != dot {
            let ghost before = views(r@);
            r.push(parts[i].clone());
            assert(views(r@) == before.push(parts@[i as int]@));
        }
        i += 1;
    }
    assert(rest.take(parts.len() - first) == rest);
    if lead {
        assert(base == seq!["."@]);
        assert(views(parts@).drop_first() == rest);
    } else {
        assert(base =~= Seq::<Seq<char>>::empty());
        assert(rest == views(parts@));
    }
    r
}

/// The path of the components `parts`, after a root when `absolute` (see
/// [`render_path`]).
pub fn render(absolute: bool, parts: &Vec<String>) -> (r: String)
    ensures
        r@ == render_path(absolute, views(parts@)),
{
    let body = join(parts, "/");
    if absolute {
        concat("/", body.as_str())
    } else {
        proof {
            assert(Seq::<char>::empty() + body@ == body@);
        }
        body
    }
}

/// `p` appended to `base` (see [`spec_join_path`]).
pub fn join_path(base: &str, p: &str) -> (r: String)
    ensures
        r@ == spec_join_path(base@, p@),
{
    if is_absolute_path(p) {
        return String::from_str(p);
    }
    let n = crate::text::chars_of(base);
    if n.len() > 0 && n[n.len() - 1] != '/' {
        let mut r = concat(base, "/");
        r.append(p);
        r
    } else {
        concat(base, p)
    }
}

/// Whether the components of `p` begin with those of `base` (see
/// [`spec_path_starts_with`]).
pub fn path_starts_with(p: &str, base: &str) -> (r: bool)
    ensures
        r == spec_path_starts_with(p@, base@),
{
    let a = components(p);
    let b = components(base);
    if is_absolute_path(p) != is_absolute_path(base) || b.len() > a.len() {
        return false;
    }
    let mut i: usize = 0;
    while i < b.len()
        invariant
            0 <= i <= b.len() <= a.len(),
            views(a@) == path_body(p@),
            views(b@) == path_body(base@),
            is_absolute(p@) == is_absolute(base@),
            forall|j: int| 0 <= j < i ==> a@[j]@ == b@[j]@,
        decreases b.len() - i,
    {
        if a[i] != b[i] {
            assert(views(a@)[i as int] == a@[i as int]@);
            assert(views(b@)[i as int] == b@[i as int]@);
            assert(views(a@).take(b.len() as int)[i as int] == views(a@)[i as int]);
            assert(views(a@).take(b.len() as int) != views(b@));
            return false;
        }
        i += 1;
    }
    assert(views(a@).take(b.len() as int) =~= views(b@));
    true
}

/// Where the check stands: a path to resolve, with what follows, or the
/// answer.
#[derive(Debug)]
pub enum PathCheck {
    /// Resolve `path` to its canonical form (following links); hand the
    /// outcome to [`on_resolved`].
    Resolve { path: String, next: AfterResolve },
    /// Whether the path lies within the working directory, or the error
    /// that prevented telling.
    Done(Result<bool, TheyaError>),
}

/// What follows the resolution of a path.
#[derive(Debug)]
pub enum AfterResolve {
    /// The working directory was resolved; `target` is the path to check,
    /// made absolute.
    WorkDir { target: String },
    /// `target` was resolved, against the resolved working directory
    /// `root`.
    Target { target: String, root: String },
    /// The ancestor of components `parts` (after a root when `absolute`)
    /// was resolved, against `root`.
    Ancestor { parts: Vec<String>, absolute: bool, root: String },
}

/// `r` resolves `path` and then does `next`.
pub open spec fn resolves(r: PathCheck, path: Seq<char>) -> bool {
    r matches PathCheck::Resolve { path: p, .. } && p@ == path
}

/// What follows the working directory `cwd` in checking `path`: the
/// working directory is resolved, the target being `path` made absolute.
pub open spec fn spec_on_cwd(path: Seq<char>, cwd: Result<String, TheyaError>, r: PathCheck) -> bool {
    match cwd {
        Err(e) => r == PathCheck::Done(Err(e)),
        Ok(c) => resolves(r, c@) && (r->Resolve_next matches AfterResolve::WorkDir { target }
            && target@ == spec_join_path(c@, path)),
    }
}

/// The check of `path` once the working directory is known (`cwd`, or the
/// error of asking for it; see [`spec_on_cwd`]).
pub fn on_cwd(path: &str, cwd: Result<String, TheyaError>) -> (r: PathCheck)
    ensures
        spec_on_cwd(path@, cwd, r),
{
    match cwd {
        Err(e) => PathCheck::Done(Err(e)),
        Ok(c) => {
            let target = join_path(c.as_str(), path);
            PathCheck::Resolve { path: c, next: AfterResolve::WorkDir { target } }
        },
    }
}

/// `r` goes on to the parent of the path of components `parts` (after a
/// root when `absolute`), against `root`: none when there is no component
/// left, and the path is then not within the working directory.
pub open spec fn to_parent(parts: Seq<Seq<char>>, absolute: bool, root: Seq<char>, r: PathCheck) -> bool {
    if parts.len() == 0 {
        r == PathCheck::Done(Ok::<bool, TheyaError>(false))
    } else {
        let up = parts.drop_last();
        resolves(r, render_path(absolute, up)) && (r->Resolve_next matches AfterResolve::Ancestor {
            parts: q,
            absolute: a,
            root: t,
        } && views(q@) == up && a == absolute && t@ == root)
    }
}

/// The step that follows the resolution of a path (`resolved`, or the
/// error of resolving it): the working directory being resolved, the target
/// is resolved next; a resolved target or ancestor gives the answer, whether
/// its components begin with those of the working directory; one that does
/// not resolve gives way to its parent.
pub open spec fn spec_on_resolved(next: AfterResolve, resolved: Result<String, TheyaError>, r: PathCheck) -> bool {
    match next {
        AfterResolve::WorkDir { target } => match resolved {
            Err(e) => r == PathCheck::Done(Err(e)),
            Ok(root) => resolves(r, target@) && (r->Resolve_next matches AfterResolve::Target {
                target: t,
                root: w,
            } && t@ == target@ && w@ == root@),
        },
        AfterResolve::Target { target, root } => match resolved {
            Ok(t) => r == PathCheck::Done(Ok::<bool, TheyaError>(spec_path_starts_with(t@, root@))),
            Err(_) => to_parent(path_body(target@), is_absolute(target@), root@, r),
        },
        AfterResolve::Ancestor { parts, absolute, root } => match resolved {
            Ok(t) => r == PathCheck::Done(Ok::<bool, TheyaError>(spec_path_starts_with(t@, root@))),
            Err(_) => to_parent(views(parts@), absolute, root@, r),
        },
    }
}

fn parent_step(parts: Vec<String>, absolute: bool, root: String) -> (r: PathCheck)
    ensures
        to_parent(views(parts@), absolute, root@, r),
{
    if parts.len() == 0 {
        return PathCheck::Done(Ok(false));
    }
    let mut up = parts;
    let ghost all = views(up@);
    up.pop();
    assert(views(up@) =~= all.drop_last());
    let path = render(absolute, &up);
    PathCheck::Resolve { path, next: AfterResolve::Ancestor { parts: up, absolute, root } }
}

/// The step that follows the resolution of a path (see
/// [`spec_on_resolved`]).
pub fn on_resolved(next: AfterResolve, resolved: Result<String, TheyaError>) -> (r: PathCheck)
    ensures
        spec_on_resolved(next, resolved, r),
{
    match next {
        AfterResolve::WorkDir { target } => match resolved {
            Err(e) => PathCheck::Done(Err(e)),
            Ok(root) => PathCheck::Resolve {
                path: target.clone(),
                next: AfterResolve::Target { target, root },
            },
        },
        AfterResolve::Target { target, root } => match resolved {
            Ok(t) => PathCheck::Done(Ok(path_starts_with(t.as_str(), root.as_str()))),
            Err(_) => {
                let parts = components(target.as_str());
                parent_step(parts, is_absolute_path(target.as_str()), root)
            },
        },
        AfterResolve::Ancestor { parts, absolute, root } => match resolved {
            Ok(t) => PathCheck::Done(Ok(path_starts_with(t.as_str(), root.as_str()))),
            Err(_) => parent_step(parts, absolute, root),
        },
    }
}

/// The walk up the ancestors ends: each ancestor that the check goes on to
/// has one component less than the path before it.
pub proof fn lemma_ancestors_shrink(parts: Seq<Seq<char>>, absolute: bool, root: Seq<char>, r: PathCheck)
    requires
        to_parent(parts, absolute, root, r),
        r is Resolve,
    ensures
        r->Resolve_next matches AfterResolve::Ancestor { parts: q, .. } && q@.len() + 1
            == parts.len(),
{
}

/// A path is within the working directory only when something resolved
/// and its components begin with those of the resolved working directory:
/// no answer is `true` otherwise.
pub proof fn lemma_accepts_only_inside(next: AfterResolve, resolved: Result<String, TheyaError>, r: PathCheck)
    requires
        spec_on_resolved(next, resolved, r),
        r == PathCheck::Done(Ok::<bool, TheyaError>(true)),
    ensures
        next !is WorkDir,
        resolved matches Ok(t) && match next {
            AfterResolve::Target { root, .. } => spec_path_starts_with(t@, root@),
            AfterResolve::Ancestor { root, .. } => spec_path_starts_with(t@, root@),
            AfterResolve::WorkDir { .. } => false,
        },
{
}

} // verus!
