//! Loading script modules and the (older) `build` builtin.

use vstd::prelude::*;
use vstd::string::*;
use crate::registry::Builtin;

verus! {

/// The file that holds the script module `module`.
pub fn module_file_name(module: &str) -> (res: String)
    ensures
        res@ == module@ + ".lua"@,
{
    let mut res = module.to_owned();
    res.append(".lua");
    res
}

/// The message when a script module cannot be loaded.
pub fn module_load_error(module: &str) -> (res: String)
    ensures
        res@ == "Failed to load module '"@ + module@ + "'"@,
{
    let mut res = "Failed to load module '".to_owned();
    res.append(module);
    res.append("'");
    res
}

/// The task arguments that `build` passes on: none when there are none.
pub fn build_arguments(args: Vec<String>) -> (res: Option<Vec<String>>)
    ensures
        args@.len() == 0 ==> res is None,
        args@.len() > 0 ==> res == Some(args),
{
    if args.len() == 0 {
        None
    } else {
        Some(args)
    }
}

/// Whether the JIT compiler stays on: yes unless switched off.
pub fn jit_enabled(flag: Option<bool>) -> (res: bool)
    ensures
        res == match flag {
            Some(v) => v,
            None => true,
        },
{
    match flag {
        Some(v) => v,
        None => true,
    }
}

/// The builtins of this module, in the order they are bound.
pub fn register() -> (res: Vec<Builtin>)
    ensures
        res@ == seq![Builtin::Build],
{
    vec![Builtin::Build]
}

} // verus!
