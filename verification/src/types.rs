//! A function written in the scripting language, to be registered under a
//! name.

use vstd::prelude::*;

verus! {

/// A named function given as source text.
pub struct LuaFunction {
    pub name: &'static str,
    pub func: &'static str,
}

} // verus!
