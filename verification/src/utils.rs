//! Confinement of the paths that build scripts open: a script may only reach
//! files under the directory it was started in.

use vstd::prelude::*;
use vstd::string::*;
use crate::paths::{is_rooted, join, lemma_join_stays_under_base, spec_join, spec_starts_with, starts_with};

verus! {

/// Why a path was refused.
#[derive(Debug)]
pub enum HardenError {
    /// The resolved path lies outside the script directory.
    OutsideRoot { path: String },
}

/// The message reported for a path outside the script directory.
pub open spec fn outside_root_message(path: Seq<char>) -> Seq<char> {
    "File not found \""@ + path + "\", files outside of the script directory cannot be accessed"@
}

impl HardenError {
    /// The message that accompanies the error.
    pub fn message(&self) -> (res: String)
        ensures
            res@ == (match self {
                HardenError::OutsideRoot { path } => outside_root_message(path@),
            }),
    {
        match self {
            HardenError::OutsideRoot { path } => {
                let mut res = "File not found \"".to_owned();
                res.append(path.as_str());
                res.append("\", files outside of the script directory cannot be accessed");
                res
            },
        }
    }
}

/// The path that is resolved for `path` in the script directory `cwd`: a
/// path that starts with a separator is taken relative to `cwd` as well.
pub open spec fn spec_harden_candidate(cwd: Seq<char>, path: Seq<char>) -> Seq<char> {
    if is_rooted(path) {
        spec_join(cwd, path.subrange(1, path.len() as int))
    } else {
        spec_join(cwd, path)
    }
}

/// Computes the path that is to be canonicalized for `path`.
pub fn harden_candidate(cwd: &str, path: &str) -> (res: String)
    ensures
        res@ == spec_harden_candidate(cwd@, path@),
{
    let n = path.unicode_len();
    if n > 0 && path.get_char(0) == '/' {
        join(cwd, path.substring_char(1, n))
    } else {
        join(cwd, path)
    }
}

/// The path resolved for a request lies under the script directory, as
/// text: the components of `cwd` come first in its components. A request
/// that starts with two separators is left out: with its first separator
/// dropped it is still rooted and replaces `cwd`.
pub proof fn lemma_candidate_under_cwd(cwd: Seq<char>, path: Seq<char>)
    requires
        !(path.len() >= 2 && path[0] == '/' && path[1] == '/'),
    ensures
        spec_starts_with(spec_harden_candidate(cwd, path), cwd),
{
    if is_rooted(path) {
        lemma_join_stays_under_base(cwd, path.subrange(1, path.len() as int));
    } else {
        lemma_join_stays_under_base(cwd, path);
    }
}

/// Accepts the canonical form of a requested path only if it lies under the
/// canonical script directory; otherwise reports `path`, the path that was
/// asked for.
pub fn harden_path(canonical: &str, canonical_root: &str, path: &str) -> (res: Result<
    String,
    HardenError,
>)
    ensures
        res is Ok <==> spec_starts_with(canonical@, canonical_root@),
        res matches Ok(r) ==> r@ == canonical@,
        res matches Err(e) ==> (match e {
            HardenError::OutsideRoot { path: p } => p@ == path@,
        }),
{
    if starts_with(canonical, canonical_root) {
        Ok(canonical.to_owned())
    } else {
        Err(HardenError::OutsideRoot { path: path.to_owned() })
    }
}

} // verus!
