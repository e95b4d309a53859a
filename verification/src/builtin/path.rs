//! Paths as build scripts see them: a script passes a path as a string or
//! as the table that describes a path, and gets back such a table.

use vstd::prelude::*;
use crate::registry::Builtin;
use vstd::string::*;
use crate::paths::{components, spec_components};
use crate::text::str_eq;

verus! {

/// A path handed to or from a script.
#[derive(Debug)]
pub struct LuaPath(pub String);

/// What a script passed where a path is expected, with what the conversion
/// reads of it.
#[derive(Debug)]
pub enum PathValue {
    /// A string: the path itself.
    Text(String),
    /// A path table: its `abspath` field.
    Table { abspath: String },
    /// Any other value, by the name of its type.
    Other { kind: String },
}

/// A value that cannot stand for a path.
#[derive(Debug)]
pub struct PathConversionError {
    pub from: String,
    pub to: String,
    pub message: String,
}

/// The final named component of a path, if the path ends in one (not in
/// the root, `.` or `..`).
pub open spec fn spec_file_name(p: Seq<char>) -> Option<Seq<char>> {
    let c = spec_components(p);
    if c.len() > 0 && c.last() != seq!['/'] && c.last() != seq!['.'] && c.last() != seq!['.', '.'] {
        Some(c.last())
    } else {
        None
    }
}

/// The position of the last `.` in `n`, or -1.
pub open spec fn last_dot(n: Seq<char>) -> int
    decreases n.len(),
{
    if n.len() == 0 {
        -1
    } else if n.last() == '.' {
        n.len() - 1
    } else {
        last_dot(n.drop_last())
    }
}

proof fn lemma_last_dot_bounds(n: Seq<char>)
    ensures
        -1 <= last_dot(n) < n.len(),
        last_dot(n) >= 0 ==> n[last_dot(n)] == '.',
    decreases n.len(),
{
    if n.len() > 0 && n.last() != '.' {
        lemma_last_dot_bounds(n.drop_last());
    }
}

/// `last_dot` finds the last dot wherever it stands: there is a dot where
/// it points and none after it, and it finds one whenever the name has a
/// dot.
pub proof fn lemma_last_dot_is_the_last(n: Seq<char>)
    ensures
        -1 <= last_dot(n) < n.len(),
        last_dot(n) >= 0 ==> n[last_dot(n)] == '.',
        forall|j: int| last_dot(n) < j < n.len() ==> n[j] != '.',
        (exists|i: int| 0 <= i < n.len() && n[i] == '.') ==> last_dot(n) >= 0,
    decreases n.len(),
{
    if n.len() > 0 && n.last() != '.' {
        let init = n.drop_last();
        lemma_last_dot_is_the_last(init);
        assert forall|j: int| last_dot(n) < j < n.len() implies n[j] != '.' by {
            if j < n.len() - 1 {
                assert(n[j] == init[j]);
            }
        }
        if exists|i: int| 0 <= i < n.len() && n[i] == '.' {
            let i = choose|i: int| 0 <= i < n.len() && n[i] == '.';
            assert(init[i] == '.');
        }
    }
}

/// A file name split at its last dot into stem and extension; a name
/// without a dot, or whose only dot leads it, has no extension.
pub open spec fn split_at_dot(n: Seq<char>) -> (Seq<char>, Option<Seq<char>>) {
    let d = last_dot(n);
    if d <= 0 {
        (n, None)
    } else {
        (n.subrange(0, d), Some(n.subrange(d + 1, n.len() as int)))
    }
}

/// A file name is split at its last dot when that dot does not lead the
/// name: stem, dot and extension put together give the name back, the stem
/// is not empty and the extension has no dot. Otherwise the whole name is
/// the stem, and the name has no dot past its first character.
pub proof fn lemma_split_at_last_dot(n: Seq<char>)
    ensures
        split_at_dot(n).1 matches Some(e) ==> split_at_dot(n).0 + seq!['.'] + e == n
            && split_at_dot(n).0.len() > 0 && forall|j: int| 0 <= j < e.len() ==> e[j] != '.',
        split_at_dot(n).1 is None ==> split_at_dot(n).0 == n && forall|j: int|
            0 < j < n.len() ==> n[j] != '.',
{
    lemma_last_dot_is_the_last(n);
    let d = last_dot(n);
    if d > 0 {
        let e = n.subrange(d + 1, n.len() as int);
        assert(n.subrange(0, d) + seq!['.'] + e =~= n);
        assert forall|j: int| 0 <= j < e.len() implies e[j] != '.' by {
            assert(e[j] == n[d + 1 + j]);
        }
    }
}

/// The extension of a path is what follows the last dot of its file name,
/// and the stem what precedes it, whenever that dot is not the name's first
/// character; a name with no such dot is all stem and has no extension.
pub proof fn lemma_extension_after_last_dot(p: Seq<char>)
    ensures
        spec_file_name(p) matches Some(name) ==> {
            &&& spec_file_stem(p) == Some(split_at_dot(name).0)
            &&& spec_extension(p) == split_at_dot(name).1
            &&& (spec_extension(p) matches Some(e) ==> split_at_dot(name).0 + seq!['.'] + e == name
                && forall|j: int| 0 <= j < e.len() ==> e[j] != '.')
            &&& (forall|i: int| 0 < i < name.len() && name[i] == '.' ==> spec_extension(p) is Some)
        },
        spec_file_name(p) is None ==> spec_file_stem(p) is None && spec_extension(p) is None,
{
    if let Some(name) = spec_file_name(p) {
        lemma_split_at_last_dot(name);
    }
}

pub open spec fn spec_file_stem(p: Seq<char>) -> Option<Seq<char>> {
    match spec_file_name(p) {
        Some(n) => Some(split_at_dot(n).0),
        None => None,
    }
}

pub open spec fn spec_extension(p: Seq<char>) -> Option<Seq<char>> {
    match spec_file_name(p) {
        Some(n) => split_at_dot(n).1,
        None => None,
    }
}

/// The parent that `std::path::Path::parent` gives for a path.
pub uninterp spec fn std_path_parent(p: Seq<char>) -> Option<Seq<char>>;

pub open spec fn option_view(o: Option<String>) -> Option<Seq<char>> {
    match o {
        Some(s) => Some(s@),
        None => None,
    }
}

/// `std::path::Path::parent`: the path without its final component; there
/// is none when the path has no component or ends in the root.
#[verifier::external_body]
fn path_parent(p: &str) -> (res: Option<String>)
    ensures
        option_view(res) == std_path_parent(p@),
        res is None <==> (spec_components(p@).len() == 0 || spec_components(p@).last() == seq!['/']),
{
    std::path::Path::new(p).parent().map(|q| q.to_string_lossy().into_owned())
}

/// The fields of the table that describes a path, as far as they follow
/// from the path's text.
#[derive(Debug)]
pub struct PathInfo {
    pub extension: Option<String>,
    pub name: Option<String>,
    pub stem: Option<String>,
    pub parent: Option<String>,
    pub path: String,
}

/// The last `.` of a string.
fn find_last_dot(n: &str) -> (res: usize)
    ensures
        res as int == if last_dot(n@) < 0 { n@.len() as int } else { last_dot(n@) },
        res <= n@.len(),
{
    proof {
        lemma_last_dot_bounds(n@);
    }
    let len = n.unicode_len();
    let mut i = len;
    assert(n@.subrange(0, len as int) =~= n@);
    while i > 0
        invariant
            i <= len,
            len == n@.len(),
            last_dot(n@) == last_dot(n@.subrange(0, i as int)),
        decreases i,
    {
        let ghost pre = n@.subrange(0, i as int);
        assert(pre.drop_last() =~= n@.subrange(0, i - 1));
        if n.get_char(i - 1) == '.' {
            return i - 1;
        }
        i = i - 1;
    }
    len
}

impl LuaPath {
    /// Reads a path from what a script passed.
    pub fn from_lua(value: PathValue) -> (res: Result<LuaPath, PathConversionError>)
        ensures
            match value {
                PathValue::Text(s) => res matches Ok(p) && p.0@ == s@,
                PathValue::Table { abspath } => res matches Ok(p) && p.0@ == abspath@,
                PathValue::Other { kind } => res matches Err(e) && e.from@ == kind@
                    && e.to@ == "LuaPath"@ && e.message@ == "expected string"@,
            },
    {
        match value {
            PathValue::Text(s) => Ok(LuaPath(s)),
            PathValue::Table { abspath } => Ok(LuaPath(abspath)),
            PathValue::Other { kind } => Err(
                PathConversionError {
                    from: kind,
                    to: "LuaPath".to_owned(),
                    message: "expected string".to_owned(),
                },
            ),
        }
    }

    /// The final named component of the path.
    pub fn file_name(&self) -> (res: Option<String>)
        ensures
            option_view(res) == spec_file_name(self.0@),
    {
        let c = components(self.0.as_str());
        if c.len() == 0 {
            return None;
        }
        let last = &c[c.len() - 1];
        assert(last@ == c.deep_view().last());
        proof {
            reveal_strlit("/");
            reveal_strlit(".");
            reveal_strlit("..");
            assert("/"@ =~= seq!['/']);
            assert("."@ =~= seq!['.']);
            assert(".."@ =~= seq!['.', '.']);
        }
        if str_eq(last.as_str(), "/") || str_eq(last.as_str(), ".") || str_eq(last.as_str(), "..") {
            None
        } else {
            Some(last.clone())
        }
    }

    /// The file name without its extension.
    pub fn file_stem(&self) -> (res: Option<String>)
        ensures
            option_view(res) == spec_file_stem(self.0@),
    {
        match self.file_name() {
            Some(n) => {
                let d = find_last_dot(n.as_str());
                if d == 0 || d == n.as_str().unicode_len() {
                    Some(n)
                } else {
                    Some(n.as_str().substring_char(0, d).to_owned())
                }
            },
            None => None,
        }
    }

    /// The extension of the file name: what follows its last dot.
    pub fn extension(&self) -> (res: Option<String>)
        ensures
            option_view(res) == spec_extension(self.0@),
    {
        match self.file_name() {
            Some(n) => {
                let len = n.as_str().unicode_len();
                let d = find_last_dot(n.as_str());
                proof {
                    lemma_last_dot_bounds(n@);
                }
                if d == 0 || d == len {
                    None
                } else {
                    Some(n.as_str().substring_char(d + 1, len).to_owned())
                }
            },
            None => None,
        }
    }

    /// The path without its final component.
    pub fn parent(&self) -> (res: Option<String>)
        ensures
            option_view(res) == std_path_parent(self.0@),
    {
        path_parent(self.0.as_str())
    }

    /// The fields of the path's table that its text determines.
    pub fn describe(&self) -> (res: PathInfo)
        ensures
            option_view(res.extension) == spec_extension(self.0@),
            option_view(res.name) == spec_file_name(self.0@),
            option_view(res.stem) == spec_file_stem(self.0@),
            option_view(res.parent) == std_path_parent(self.0@),
            res.path@ == self.0@,
    {
        PathInfo {
            extension: self.extension(),
            name: self.file_name(),
            stem: self.file_stem(),
            parent: self.parent(),
            path: self.0.clone(),
        }
    }
}

/// The `file_type` field that `stat` reports.
pub fn file_kind(is_file: bool, is_dir: bool, is_symlink: bool) -> (res: &'static str)
    ensures
        res@ == if is_file {
            "file"@
        } else if is_dir {
            "dir"@
        } else if is_symlink {
            "symlink"@
        } else {
            "unknown"@
        },
{
    if is_file {
        "file"
    } else if is_dir {
        "dir"
    } else if is_symlink {
        "symlink"
    } else {
        "unknown"
    }
}

/// The builtins of this module, in the order they are bound.
pub fn register() -> (res: Vec<Builtin>)
    ensures
        res@ == seq![Builtin::Path, Builtin::Stat, Builtin::Exists],
{
    vec![Builtin::Path, Builtin::Stat, Builtin::Exists]
}

} // verus!
