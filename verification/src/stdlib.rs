//! The functions of the embedding's standard library.

use vstd::prelude::*;
use vstd::string::*;

verus! {

/// The embedding's standard library.
pub struct StdLib;

impl StdLib {
    /// The greeting returned to the script: `hello, <name>!`.
    pub fn greet(name: &str) -> (res: String)
        ensures
            res@ == "hello, "@ + name@ + "!"@,
    {
        let mut res = "hello, ".to_owned();
        res.append(name);
        res.append("!");
        res
    }
}

} // verus!
