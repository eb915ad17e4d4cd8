//! Path-resolution policy and persistence planning for the save operation of
//! the command bridge.
//!
//! The save operation itself touches the file system, which the host performs;
//! this module owns the decisions: where a request's target path resolves to,
//! which directory must exist first, and how a directory-creation failure is
//! treated. A `Map`-based model of the file system states what a completed
//! save leaves behind.

use vstd::prelude::*;

verus! {

/// True when `p` names an absolute location: it starts with the separator.
pub open spec fn is_absolute(p: Seq<char>) -> bool {
    p.len() > 0 && p[0] == '/'
}

/// Joining `rel` onto `base`: an absolute `rel` replaces `base` outright;
/// otherwise the two are joined with exactly one separator between them.
pub open spec fn joined(base: Seq<char>, rel: Seq<char>) -> Seq<char> {
    if is_absolute(rel) {
        rel
    } else if base.len() > 0 && base[base.len() - 1] == '/' {
        base + rel
    } else {
        base + "/"@ + rel
    }
}

/// The directory saves land under when a home directory is known.
pub open spec fn documents_dir(home: Seq<char>) -> Seq<char> {
    joined(home, "Documents"@)
}

/// The view of an optional home-directory value.
pub open spec fn home_view(home: Option<&str>) -> Option<Seq<char>> {
    match home {
        Some(h) => Some(h@),
        None => None,
    }
}

/// The final target of a save. With a home directory known, the target is the
/// caller's path joined under `<home>/Documents`; with none, the resolution
/// falls open and the caller-supplied path stands unmodified (no sandboxing in
/// that branch).
pub open spec fn resolved_target(home: Option<Seq<char>>, path: Seq<char>) -> Seq<char> {
    match home {
        Some(h) => joined(documents_dir(h), path),
        None => path,
    }
}

/// Joins `rel` onto `base` exactly as `joined` describes.
pub fn join_path(base: &str, rel: &str) -> (r: String)
    ensures
        r@ == joined(base@, rel@),
{
    let rel_len = rel.unicode_len();
    if rel_len > 0 && rel.get_char(0) == '/' {
        return rel.to_owned();
    }
    let base_len = base.unicode_len();
    let mut out = base.to_owned();
    if base_len == 0 || base.get_char(base_len - 1) != '/' {
        out.append("/");
    }
    out.append(rel);
    proof {
        assert(out@ =~= joined(base@, rel@));
    }
    out
}

/// Resolves the final target path of a save request under the documented
/// fallback policy.
pub fn resolve_target(home: Option<&str>, path: &str) -> (r: String)
    ensures
        r@ == resolved_target(home_view(home), path@),
{
    match home {
        Some(h) => {
            let docs = join_path(h, "Documents");
            join_path(docs.as_str(), path)
        },
        None => path.to_owned(),
    }
}

/// What to do when creating the save directory fails: the failure is swallowed
/// and the save goes on. A deliberate best-effort policy of this design, named
/// so that it can be asserted rather than left implicit.
#[derive(Clone, Copy, PartialEq, Eq, Structural, Debug)]
pub enum MkdirFailurePolicy {
    Ignore,
}

/// The effectful steps one save request asks of the host: which directory to
/// ensure exists first (best-effort, with all missing intermediates), and
/// which file to create-or-truncate and write in one pass.
pub struct SavePlan {
    /// Directory to create before writing; present exactly when a home
    /// directory is known.
    pub ensure_dir: Option<String>,
    /// The file to create (truncating any previous contents) and write whole.
    pub target: String,
    /// How a failure to create `ensure_dir` is treated.
    pub on_mkdir_failure: MkdirFailurePolicy,
}

/// Plans a save request: resolves the target path and names the directory
/// that must exist, under the fallback policy of `resolved_target`.
pub fn plan_save(home: Option<&str>, path: &str) -> (p: SavePlan)
    ensures
        p.target@ == resolved_target(home_view(home), path@),
        p.on_mkdir_failure == MkdirFailurePolicy::Ignore,
        match home {
            Some(h) => p.ensure_dir matches Some(d) && d@ == documents_dir(h@),
            None => p.ensure_dir is None,
        },
{
    match home {
        Some(h) => {
            let docs = join_path(h, "Documents");
            let target = join_path(docs.as_str(), path);
            SavePlan {
                ensure_dir: Some(docs),
                target,
                on_mkdir_failure: MkdirFailurePolicy::Ignore,
            }
        },
        None => SavePlan {
            ensure_dir: None,
            target: path.to_owned(),
            on_mkdir_failure: MkdirFailurePolicy::Ignore,
        },
    }
}

/// A model of the file system as the save operation sees it: each path holds
/// the contents most recently written to it. A completed save binds the
/// target path to the full payload, whatever it held before.
pub open spec fn store_after_save(
    store: Map<Seq<char>, Seq<char>>,
    target: Seq<char>,
    contents: Seq<char>,
) -> Map<Seq<char>, Seq<char>> {
    store.insert(target, contents)
}

/// A completed save leaves a file at the resolved target whose contents equal
/// the payload verbatim; with a home directory known, that target lies under
/// `<home>/Documents`.
pub proof fn lemma_save_writes_contents(
    store: Map<Seq<char>, Seq<char>>,
    home: Option<Seq<char>>,
    path: Seq<char>,
    contents: Seq<char>,
)
    ensures
        store_after_save(store, resolved_target(home, path), contents).dom().contains(
            resolved_target(home, path),
        ),
        store_after_save(store, resolved_target(home, path), contents)[resolved_target(
            home,
            path,
        )] == contents,
        home matches Some(h) ==> resolved_target(home, path) == joined(documents_dir(h), path),
{
}

/// Saving is a full overwrite, not an append: two saves to one resolved
/// target leave the store exactly as a single save of the second contents
/// would, and the target holds only the second contents.
pub proof fn lemma_save_overwrites(
    store: Map<Seq<char>, Seq<char>>,
    target: Seq<char>,
    first: Seq<char>,
    second: Seq<char>,
)
    ensures
        store_after_save(store_after_save(store, target, first), target, second)
            == store_after_save(store, target, second),
        store_after_save(store_after_save(store, target, first), target, second)[target]
            == second,
{
    assert(store_after_save(store_after_save(store, target, first), target, second)
        =~= store_after_save(store, target, second));
}

/// With no home directory set, the save goes to exactly the caller's literal
/// path: no prefixing.
pub proof fn lemma_fallback_uses_literal_path(path: Seq<char>)
    ensures
        resolved_target(None, path) == path,
{
}

} // verus!
