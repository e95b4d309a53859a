//! The values every script starts with.

use vstd::prelude::*;
use crate::registry::Builtin;

verus! {

/// The builtins of this module, in the order they are bound.
pub fn register() -> (res: Vec<Builtin>)
    ensures
        res@ == seq![Builtin::Tasks, Builtin::Project, Builtin::Lock, Builtin::Iwd],
{
    vec![Builtin::Tasks, Builtin::Project, Builtin::Lock, Builtin::Iwd]
}

} // verus!
