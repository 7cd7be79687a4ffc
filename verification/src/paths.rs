//! A plain-text model of filesystem paths.
//!
//! Paths are character strings; a path is absolute when it starts with the
//! separator. Joining appends a separator unless the left side already ends
//! with one, so joining under the root directory introduces no double
//! separator. The surrounding program converts between these strings and its
//! platform path values at the boundary.

use vstd::prelude::*;
use vstd::string::StrSliceExecFns;
use vstd::string::StringExecFns;

verus! {

/// True when a path starts with the separator.
pub open spec fn spec_is_absolute(p: Seq<char>) -> bool {
    p.len() > 0 && p[0] == '/'
}

/// The path naming `child` inside the directory `parent`.
pub open spec fn spec_join(parent: Seq<char>, child: Seq<char>) -> Seq<char> {
    if parent.len() > 0 && parent.last() == '/' {
        parent + child
    } else {
        parent + seq!['/'] + child
    }
}

/// `parent` itself when it is absolute, else `parent` joined under `cwd`.
pub open spec fn spec_resolve(parent: Seq<char>, cwd: Seq<char>) -> Seq<char> {
    if spec_is_absolute(parent) {
        parent
    } else {
        spec_join(cwd, parent)
    }
}

/// The entry name a prefix and a generated suffix compose: the suffix alone
/// when the prefix is empty, else the prefix and the suffix separated by one
/// dot.
pub open spec fn spec_entry_name(prefix: Seq<char>, suffix: Seq<char>) -> Seq<char> {
    if prefix.len() == 0 {
        suffix
    } else {
        prefix + seq!['.'] + suffix
    }
}

/// The candidate path one create attempt aims at.
pub open spec fn spec_candidate(parent: Seq<char>, prefix: Seq<char>, suffix: Seq<char>) -> Seq<
    char,
> {
    spec_join(parent, spec_entry_name(prefix, suffix))
}

/// Whether a path is absolute.
pub fn is_absolute(path: &str) -> (r: bool)
    ensures
        r == spec_is_absolute(path@),
{
    let n = path.unicode_len();
    if n == 0 {
        false
    } else {
        path.get_char(0) == '/'
    }
}

/// Join `child` under the directory `parent`.
pub fn join_path(parent: &str, child: &str) -> (r: String)
    ensures
        r@ == spec_join(parent@, child@),
{
    let mut s = String::from_str(parent);
    let n = parent.unicode_len();
    if n == 0 || parent.get_char(n - 1) != '/' {
        proof {
            reveal_strlit("/");
        }
        s.append("/");
    }
    s.append(child);
    proof {
        assert(s@ =~= spec_join(parent@, child@));
    }
    s
}

/// Resolve a requested parent: keep it when it is absolute, else join it
/// under the supplied working directory.
pub fn resolve_parent(parent: &str, cwd: &str) -> (r: String)
    ensures
        r@ == spec_resolve(parent@, cwd@),
{
    if is_absolute(parent) {
        String::from_str(parent)
    } else {
        join_path(cwd, parent)
    }
}

/// Compose the candidate path for one create attempt.
pub fn compose_candidate(parent: &str, prefix: &str, suffix: &str) -> (r: String)
    ensures
        r@ == spec_candidate(parent@, prefix@, suffix@),
{
    if prefix.is_empty() {
        join_path(parent, suffix)
    } else {
        let mut name = String::from_str(prefix);
        proof {
            reveal_strlit(".");
        }
        name.append(".");
        name.append(suffix);
        proof {
            assert(name@ =~= spec_entry_name(prefix@, suffix@));
        }
        join_path(parent, name.as_str())
    }
}

/// Law: a relative parent resolved against the working directory gives the
/// same path as resolving its already-joined absolute form.
pub proof fn lemma_relative_resolution(parent: Seq<char>, cwd: Seq<char>)
    requires
        !spec_is_absolute(parent),
        spec_is_absolute(cwd),
    ensures
        spec_resolve(parent, cwd) == spec_resolve(spec_join(cwd, parent), cwd),
{
    assert(spec_join(cwd, parent)[0] == cwd[0]);
}

} // verus!
