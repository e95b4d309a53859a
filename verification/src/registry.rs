//! The names under which the builtins are bound in a script's environment.
//!
//! Each builtin module lists its builtins with `register`; the embedding
//! binds each one under its name in its table.

use vstd::prelude::*;

verus! {

/// The table a builtin is bound in.
#[derive(Debug, Clone, Copy, PartialEq, Eq, Structural)]
pub enum Scope {
    /// The global table.
    Global,
    /// The `io` table.
    Io,
    /// The `re` table.
    Re,
}

/// A value or function bound in a script's environment.
#[derive(Debug, Clone, Copy, PartialEq, Eq, Structural)]
pub enum Builtin {
    /// Unpacks an archive.
    Extract,
    /// Runs a build script (kept for older scripts).
    Build,
    /// Hashes files.
    Hash,
    /// Hashes a string.
    Hashs,
    /// Checksums files.
    Checksum,
    /// Checksums a string.
    Checksums,
    /// Fetches a URL.
    Fetch,
    /// Lists the paths that match a pattern.
    Glob,
    /// The build graph.
    BuildGraph,
    /// Resolves a path inside the script directory.
    IoPath,
    /// Removed: set to nil.
    IoPopen,
    /// Opens a file inside the script directory.
    IoOpen,
    /// Reads the lines of a file inside the script directory.
    IoLines,
    /// The table of tasks.
    Tasks,
    /// The project table.
    Project,
    /// The lock table.
    Lock,
    /// The directory the script started in.
    Iwd,
    /// Makes a path table.
    Path,
    /// Reports what the file system knows of a path.
    Stat,
    /// Whether a path exists.
    Exists,
    /// All matches of a pattern.
    ReMatches,
    /// Replaces every match.
    ReReplaceAll,
    /// Replaces the first match.
    ReReplace,
    /// The table of regular-expression functions.
    Re,
    /// Serializes a value.
    Into,
    /// Parses serialized text.
    From,
    /// Changes the working directory.
    Cd,
    /// Creates a directory.
    Mkdir,
    /// Copies a file.
    Cp,
    /// The working directory.
    Pwd,
    /// Sets an environment variable.
    Setenv,
    /// Runs a command.
    Exec,
}

/// The name a builtin is bound under.
pub open spec fn builtin_name(b: Builtin) -> Seq<char> {
    match b {
        Builtin::Extract => "extract"@,
        Builtin::Build => "build"@,
        Builtin::Hash => "hash"@,
        Builtin::Hashs => "hashs"@,
        Builtin::Checksum => "checksum"@,
        Builtin::Checksums => "checksums"@,
        Builtin::Fetch => "fetch"@,
        Builtin::Glob => "glob"@,
        Builtin::BuildGraph => "buildgraph"@,
        Builtin::IoPath => "path"@,
        Builtin::IoPopen => "popen"@,
        Builtin::IoOpen => "open"@,
        Builtin::IoLines => "lines"@,
        Builtin::Tasks => "tasks"@,
        Builtin::Project => "project"@,
        Builtin::Lock => "lock"@,
        Builtin::Iwd => "IWD"@,
        Builtin::Path => "path"@,
        Builtin::Stat => "stat"@,
        Builtin::Exists => "exists"@,
        Builtin::ReMatches => "matches"@,
        Builtin::ReReplaceAll => "replace_all"@,
        Builtin::ReReplace => "replace"@,
        Builtin::Re => "re"@,
        Builtin::Into => "into"@,
        Builtin::From => "from"@,
        Builtin::Cd => "cd"@,
        Builtin::Mkdir => "mkdir"@,
        Builtin::Cp => "cp"@,
        Builtin::Pwd => "pwd"@,
        Builtin::Setenv => "setenv"@,
        Builtin::Exec => "exec"@,
    }
}

/// The table a builtin is bound in.
pub open spec fn builtin_scope(b: Builtin) -> Scope {
    match b {
        Builtin::Extract => Scope::Global,
        Builtin::Build => Scope::Global,
        Builtin::Hash => Scope::Global,
        Builtin::Hashs => Scope::Global,
        Builtin::Checksum => Scope::Global,
        Builtin::Checksums => Scope::Global,
        Builtin::Fetch => Scope::Global,
        Builtin::Glob => Scope::Global,
        Builtin::BuildGraph => Scope::Global,
        Builtin::IoPath => Scope::Io,
        Builtin::IoPopen => Scope::Io,
        Builtin::IoOpen => Scope::Io,
        Builtin::IoLines => Scope::Io,
        Builtin::Tasks => Scope::Global,
        Builtin::Project => Scope::Global,
        Builtin::Lock => Scope::Global,
        Builtin::Iwd => Scope::Global,
        Builtin::Path => Scope::Global,
        Builtin::Stat => Scope::Global,
        Builtin::Exists => Scope::Global,
        Builtin::ReMatches => Scope::Re,
        Builtin::ReReplaceAll => Scope::Re,
        Builtin::ReReplace => Scope::Re,
        Builtin::Re => Scope::Global,
        Builtin::Into => Scope::Global,
        Builtin::From => Scope::Global,
        Builtin::Cd => Scope::Global,
        Builtin::Mkdir => Scope::Global,
        Builtin::Cp => Scope::Global,
        Builtin::Pwd => Scope::Global,
        Builtin::Setenv => Scope::Global,
        Builtin::Exec => Scope::Global,
    }
}

impl Builtin {
    /// The name the builtin is bound under.
    pub fn name(&self) -> (res: &'static str)
        ensures
            res@ == builtin_name(*self),
    {
        match self {
            Builtin::Extract => "extract",
            Builtin::Build => "build",
            Builtin::Hash => "hash",
            Builtin::Hashs => "hashs",
            Builtin::Checksum => "checksum",
            Builtin::Checksums => "checksums",
            Builtin::Fetch => "fetch",
            Builtin::Glob => "glob",
            Builtin::BuildGraph => "buildgraph",
            Builtin::IoPath => "path",
            Builtin::IoPopen => "popen",
            Builtin::IoOpen => "open",
            Builtin::IoLines => "lines",
            Builtin::Tasks => "tasks",
            Builtin::Project => "project",
            Builtin::Lock => "lock",
            Builtin::Iwd => "IWD",
            Builtin::Path => "path",
            Builtin::Stat => "stat",
            Builtin::Exists => "exists",
            Builtin::ReMatches => "matches",
            Builtin::ReReplaceAll => "replace_all",
            Builtin::ReReplace => "replace",
            Builtin::Re => "re",
            Builtin::Into => "into",
            Builtin::From => "from",
            Builtin::Cd => "cd",
            Builtin::Mkdir => "mkdir",
            Builtin::Cp => "cp",
            Builtin::Pwd => "pwd",
            Builtin::Setenv => "setenv",
            Builtin::Exec => "exec",
        }
    }

    /// The table the builtin is bound in.
    pub fn scope(&self) -> (res: Scope)
        ensures
            res == builtin_scope(*self),
    {
        match self {
            Builtin::Extract => Scope::Global,
            Builtin::Build => Scope::Global,
            Builtin::Hash => Scope::Global,
            Builtin::Hashs => Scope::Global,
            Builtin::Checksum => Scope::Global,
            Builtin::Checksums => Scope::Global,
            Builtin::Fetch => Scope::Global,
            Builtin::Glob => Scope::Global,
            Builtin::BuildGraph => Scope::Global,
            Builtin::IoPath => Scope::Io,
            Builtin::IoPopen => Scope::Io,
            Builtin::IoOpen => Scope::Io,
            Builtin::IoLines => Scope::Io,
            Builtin::Tasks => Scope::Global,
            Builtin::Project => Scope::Global,
            Builtin::Lock => Scope::Global,
            Builtin::Iwd => Scope::Global,
            Builtin::Path => Scope::Global,
            Builtin::Stat => Scope::Global,
            Builtin::Exists => Scope::Global,
            Builtin::ReMatches => Scope::Re,
            Builtin::ReReplaceAll => Scope::Re,
            Builtin::ReReplace => Scope::Re,
            Builtin::Re => Scope::Global,
            Builtin::Into => Scope::Global,
            Builtin::From => Scope::Global,
            Builtin::Cd => Scope::Global,
            Builtin::Mkdir => Scope::Global,
            Builtin::Cp => Scope::Global,
            Builtin::Pwd => Scope::Global,
            Builtin::Setenv => Scope::Global,
            Builtin::Exec => Scope::Global,
        }
    }
}

/// No two builtins are bound under the same name in the same table, so
/// binding them all, in any order, loses none.
#[verifier::rlimit(100)]
pub proof fn lemma_names_distinct(a: Builtin, b: Builtin)
    requires
        a != b,
        builtin_scope(a) == builtin_scope(b),
    ensures
        builtin_name(a) != builtin_name(b),
{
    reveal_strlit("IWD");
    reveal_strlit("build");
    reveal_strlit("buildgraph");
    reveal_strlit("cd");
    reveal_strlit("checksum");
    reveal_strlit("checksums");
    reveal_strlit("cp");
    reveal_strlit("exec");
    reveal_strlit("exists");
    reveal_strlit("extract");
    reveal_strlit("fetch");
    reveal_strlit("from");
    reveal_strlit("glob");
    reveal_strlit("hash");
    reveal_strlit("hashs");
    reveal_strlit("into");
    reveal_strlit("lines");
    reveal_strlit("lock");
    reveal_strlit("matches");
    reveal_strlit("mkdir");
    reveal_strlit("open");
    reveal_strlit("path");
    reveal_strlit("popen");
    reveal_strlit("project");
    reveal_strlit("pwd");
    reveal_strlit("re");
    reveal_strlit("replace");
    reveal_strlit("replace_all");
    reveal_strlit("setenv");
    reveal_strlit("stat");
    reveal_strlit("tasks");
    if builtin_name(a) == builtin_name(b) {
        assert(builtin_name(a).len() == builtin_name(b).len());
        assert(0 < builtin_name(a).len() ==> builtin_name(a)[0] == builtin_name(b)[0]);
        assert(1 < builtin_name(a).len() ==> builtin_name(a)[1] == builtin_name(b)[1]);
        assert(2 < builtin_name(a).len() ==> builtin_name(a)[2] == builtin_name(b)[2]);
        assert(3 < builtin_name(a).len() ==> builtin_name(a)[3] == builtin_name(b)[3]);
        assert(4 < builtin_name(a).len() ==> builtin_name(a)[4] == builtin_name(b)[4]);
        assert(5 < builtin_name(a).len() ==> builtin_name(a)[5] == builtin_name(b)[5]);
        assert(6 < builtin_name(a).len() ==> builtin_name(a)[6] == builtin_name(b)[6]);
        assert(7 < builtin_name(a).len() ==> builtin_name(a)[7] == builtin_name(b)[7]);
        assert(8 < builtin_name(a).len() ==> builtin_name(a)[8] == builtin_name(b)[8]);
        assert(9 < builtin_name(a).len() ==> builtin_name(a)[9] == builtin_name(b)[9]);
        assert(10 < builtin_name(a).len() ==> builtin_name(a)[10] == builtin_name(b)[10]);
    }
}

/// Every builtin, in the order `register_all` lists them.
pub open spec fn all_builtins() -> Seq<Builtin> {
    seq![
        Builtin::Extract,
        Builtin::Build,
        Builtin::Hash,
        Builtin::Hashs,
        Builtin::Checksum,
        Builtin::Checksums,
        Builtin::Fetch,
        Builtin::Glob,
        Builtin::BuildGraph,
        Builtin::IoPath,
        Builtin::IoPopen,
        Builtin::IoOpen,
        Builtin::IoLines,
        Builtin::Tasks,
        Builtin::Project,
        Builtin::Lock,
        Builtin::Iwd,
        Builtin::Path,
        Builtin::Stat,
        Builtin::Exists,
        Builtin::ReMatches,
        Builtin::ReReplaceAll,
        Builtin::ReReplace,
        Builtin::Re,
        Builtin::Into,
        Builtin::From,
        Builtin::Cd,
        Builtin::Mkdir,
        Builtin::Cp,
        Builtin::Pwd,
        Builtin::Setenv,
        Builtin::Exec,
    ]
}

/// The position of a builtin in `all_builtins`.
pub open spec fn builtin_number(b: Builtin) -> int {
    match b {
        Builtin::Extract => 0,
        Builtin::Build => 1,
        Builtin::Hash => 2,
        Builtin::Hashs => 3,
        Builtin::Checksum => 4,
        Builtin::Checksums => 5,
        Builtin::Fetch => 6,
        Builtin::Glob => 7,
        Builtin::BuildGraph => 8,
        Builtin::IoPath => 9,
        Builtin::IoPopen => 10,
        Builtin::IoOpen => 11,
        Builtin::IoLines => 12,
        Builtin::Tasks => 13,
        Builtin::Project => 14,
        Builtin::Lock => 15,
        Builtin::Iwd => 16,
        Builtin::Path => 17,
        Builtin::Stat => 18,
        Builtin::Exists => 19,
        Builtin::ReMatches => 20,
        Builtin::ReReplaceAll => 21,
        Builtin::ReReplace => 22,
        Builtin::Re => 23,
        Builtin::Into => 24,
        Builtin::From => 25,
        Builtin::Cd => 26,
        Builtin::Mkdir => 27,
        Builtin::Cp => 28,
        Builtin::Pwd => 29,
        Builtin::Setenv => 30,
        Builtin::Exec => 31,
    }
}

/// `register_all` binds every builtin, and each one once.
pub proof fn lemma_all_builtins_once(b: Builtin)
    ensures
        forall|i: int, j: int|
            0 <= i < j < all_builtins().len() ==> all_builtins()[i] != all_builtins()[j],
        0 <= builtin_number(b) < all_builtins().len(),
        all_builtins()[builtin_number(b)] == b,
{
    let n = all_builtins().len() as int;
    assert(all_builtins()[0] == Builtin::Extract);
    assert(all_builtins()[1] == Builtin::Build);
    assert(all_builtins()[2] == Builtin::Hash);
    assert(all_builtins()[3] == Builtin::Hashs);
    assert(all_builtins()[4] == Builtin::Checksum);
    assert(all_builtins()[5] == Builtin::Checksums);
    assert(all_builtins()[6] == Builtin::Fetch);
    assert(all_builtins()[7] == Builtin::Glob);
    assert(all_builtins()[8] == Builtin::BuildGraph);
    assert(all_builtins()[9] == Builtin::IoPath);
    assert(all_builtins()[10] == Builtin::IoPopen);
    assert(all_builtins()[11] == Builtin::IoOpen);
    assert(all_builtins()[12] == Builtin::IoLines);
    assert(all_builtins()[13] == Builtin::Tasks);
    assert(all_builtins()[14] == Builtin::Project);
    assert(all_builtins()[15] == Builtin::Lock);
    assert(all_builtins()[16] == Builtin::Iwd);
    assert(all_builtins()[17] == Builtin::Path);
    assert(all_builtins()[18] == Builtin::Stat);
    assert(all_builtins()[19] == Builtin::Exists);
    assert(all_builtins()[20] == Builtin::ReMatches);
    assert(all_builtins()[21] == Builtin::ReReplaceAll);
    assert(all_builtins()[22] == Builtin::ReReplace);
    assert(all_builtins()[23] == Builtin::Re);
    assert(all_builtins()[24] == Builtin::Into);
    assert(all_builtins()[25] == Builtin::From);
    assert(all_builtins()[26] == Builtin::Cd);
    assert(all_builtins()[27] == Builtin::Mkdir);
    assert(all_builtins()[28] == Builtin::Cp);
    assert(all_builtins()[29] == Builtin::Pwd);
    assert(all_builtins()[30] == Builtin::Setenv);
    assert(all_builtins()[31] == Builtin::Exec);
    assert forall|i: int| 0 <= i < n implies builtin_number(#[trigger] all_builtins()[i]) == i by {
        assert(i == 0 || i == 1 || i == 2 || i == 3 || i == 4 || i == 5 || i == 6 || i == 7 || i == 8 || i == 9 || i == 10 || i == 11 || i == 12 || i == 13 || i == 14 || i == 15 || i == 16 || i == 17 || i == 18 || i == 19 || i == 20 || i == 21 || i == 22 || i == 23 || i == 24 || i == 25 || i == 26 || i == 27 || i == 28 || i == 29 || i == 30 || i == 31);
    }
    assert forall|i: int, j: int| 0 <= i < j < n implies all_builtins()[i] != all_builtins()[j] by {
        assert(builtin_number(all_builtins()[i]) == i);
        assert(builtin_number(all_builtins()[j]) == j);
    }
    match b {
        Builtin::Extract => {},
        Builtin::Build => {},
        Builtin::Hash => {},
        Builtin::Hashs => {},
        Builtin::Checksum => {},
        Builtin::Checksums => {},
        Builtin::Fetch => {},
        Builtin::Glob => {},
        Builtin::BuildGraph => {},
        Builtin::IoPath => {},
        Builtin::IoPopen => {},
        Builtin::IoOpen => {},
        Builtin::IoLines => {},
        Builtin::Tasks => {},
        Builtin::Project => {},
        Builtin::Lock => {},
        Builtin::Iwd => {},
        Builtin::Path => {},
        Builtin::Stat => {},
        Builtin::Exists => {},
        Builtin::ReMatches => {},
        Builtin::ReReplaceAll => {},
        Builtin::ReReplace => {},
        Builtin::Re => {},
        Builtin::Into => {},
        Builtin::From => {},
        Builtin::Cd => {},
        Builtin::Mkdir => {},
        Builtin::Cp => {},
        Builtin::Pwd => {},
        Builtin::Setenv => {},
        Builtin::Exec => {},
    }
}

/// Every builtin of every module, module by module.
pub fn register_all() -> (res: Vec<Builtin>)
    ensures
        res@ == all_builtins(),
{
    let mut res: Vec<Builtin> = Vec::new();
    let mut part = crate::builtin::compress::register();
    res.append(&mut part);
    let mut part = crate::builtin::corelib::register();
    res.append(&mut part);
    let mut part = crate::builtin::crypto::register();
    res.append(&mut part);
    let mut part = crate::builtin::curl::register();
    res.append(&mut part);
    let mut part = crate::builtin::glob::register();
    res.append(&mut part);
    let mut part = crate::builtin::graph::register();
    res.append(&mut part);
    let mut part = crate::builtin::harden::register();
    res.append(&mut part);
    let mut part = crate::builtin::native::register();
    res.append(&mut part);
    let mut part = crate::builtin::path::register();
    res.append(&mut part);
    let mut part = crate::builtin::regex::register();
    res.append(&mut part);
    let mut part = crate::builtin::serializer::register();
    res.append(&mut part);
    let mut part = crate::builtin::shell::register();
    res.append(&mut part);
    assert(res@ =~= all_builtins());
    res
}

} // verus!
