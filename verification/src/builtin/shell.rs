//! Shell-like builtins (`cd`, `mkdir`, `cp`, `pwd`, `setenv`, `exec`).

use vstd::prelude::*;
use vstd::string::*;
use crate::builtin::path::{spec_file_name, LuaPath};
use crate::paths::{join, spec_join};
use crate::registry::Builtin;

verus! {

/// Where `cp` copies `from`: into the directory `to` under the file's own
/// name when `to` is a directory, otherwise to `to` itself. There is no
/// destination when `to` is a directory and `from` has no file name.
pub fn copy_destination(from: &str, to: &str, to_is_dir: bool) -> (res: Option<String>)
    ensures
        !to_is_dir ==> (res matches Some(s) && s@ == to@),
        to_is_dir ==> match spec_file_name(from@) {
            Some(n) => res matches Some(s) && s@ == spec_join(to@, n),
            None => res is None,
        },
{
    if to_is_dir {
        let p = LuaPath(from.to_owned());
        match p.file_name() {
            Some(n) => Some(join(to, n.as_str())),
            None => None,
        }
    } else {
        Some(to.to_owned())
    }
}

/// The builtins of this module, in the order they are bound.
pub fn register() -> (res: Vec<Builtin>)
    ensures
        res@ == seq![Builtin::Cd, Builtin::Mkdir, Builtin::Cp, Builtin::Pwd, Builtin::Setenv, Builtin::Exec],
{
    vec![Builtin::Cd, Builtin::Mkdir, Builtin::Cp, Builtin::Pwd, Builtin::Setenv, Builtin::Exec]
}

} // verus!
