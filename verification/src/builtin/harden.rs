//! The `io` functions that scripts use to reach files, restricted to the
//! script directory.

use vstd::prelude::*;
use crate::registry::Builtin;

verus! {

/// The builtins of this module, in the order they are bound: `io.path`,
/// then `io.popen` (removed), `io.open` and `io.lines` (restricted).
pub fn register() -> (res: Vec<Builtin>)
    ensures
        res@ == seq![Builtin::IoPath, Builtin::IoPopen, Builtin::IoOpen, Builtin::IoLines],
{
    vec![Builtin::IoPath, Builtin::IoPopen, Builtin::IoOpen, Builtin::IoLines]
}

} // verus!
