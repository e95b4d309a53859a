//! Listing the paths that match a glob pattern (`glob`).

use vstd::prelude::*;
use crate::builtin::path::LuaPath;
use crate::registry::Builtin;

verus! {

/// The paths among the entries that could be read, in order.
pub open spec fn readable_entries(entries: Seq<Result<Seq<char>, Seq<char>>>) -> Seq<Seq<char>>
    decreases entries.len(),
{
    if entries.len() == 0 {
        seq![]
    } else {
        let rest = readable_entries(entries.drop_last());
        match entries.last() {
            Ok(p) => rest.push(p),
            Err(_) => rest,
        }
    }
}

pub open spec fn entry_model(e: Result<String, String>) -> Result<Seq<char>, Seq<char>> {
    match e {
        Ok(p) => Ok(p@),
        Err(m) => Err(m@),
    }
}

pub open spec fn paths_model(v: Seq<LuaPath>) -> Seq<Seq<char>> {
    v.map_values(|p: LuaPath| p.0@)
}

/// The result of `glob`: the pattern's error, or the paths that matched
/// and could be read (entries that failed are left out).
pub fn glob_files(found: Result<Vec<Result<String, String>>, String>) -> (res: Result<Vec<LuaPath>, String>)
    ensures
        match found {
            Err(m) => res matches Err(n) && n@ == m@,
            Ok(entries) => res matches Ok(v) && paths_model(v@) == readable_entries(
                entries@.map_values(|e| entry_model(e)),
            ),
        },
{
    match found {
        Err(m) => Err(m),
        Ok(entries) => {
            let ghost model = entries@.map_values(|e| entry_model(e));
            let mut res: Vec<LuaPath> = Vec::new();
            let mut i: usize = 0;
            while i < entries.len()
                invariant
                    i <= entries.len(),
                    model == entries@.map_values(|e| entry_model(e)),
                    paths_model(res@) == readable_entries(model.subrange(0, i as int)),
                decreases entries.len() - i,
            {
                let ghost pre = model.subrange(0, i as int);
                let ghost next = model.subrange(0, i + 1);
                assert(next.drop_last() =~= pre);
                assert(next.last() == entry_model(entries[i as int]));
                let ghost before = res@;
                match &entries[i] {
                    Ok(p) => {
                        res.push(LuaPath(p.clone()));
                        assert(paths_model(res@) =~= paths_model(before).push(p@));
                    },
                    Err(_) => {},
                }
                i = i + 1;
            }
            assert(model.subrange(0, entries.len() as int) =~= model);
            Ok(res)
        },
    }
}

/// The builtins of this module, in the order they are bound.
pub fn register() -> (res: Vec<Builtin>)
    ensures
        res@ == seq![Builtin::Glob],
{
    vec![Builtin::Glob]
}

} // verus!
