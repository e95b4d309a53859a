//! Decisions of the command-line front end.

use vstd::prelude::*;
use vstd::string::*;

verus! {

/// The build script to run: the one named on the command line, else
/// `build.lua` when it exists, else `build.pksc`.
pub fn build_file(file: Option<String>, build_lua_exists: bool) -> (res: String)
    ensures
        match file {
            Some(f) => res@ == f@,
            None => res@ == if build_lua_exists {
                "build.lua"@
            } else {
                "build.pksc"@
            },
        },
{
    match file {
        Some(f) => f,
        None => if build_lua_exists {
            "build.lua".to_owned()
        } else {
            "build.pksc".to_owned()
        },
    }
}

} // verus!
