//! What a build is run with, and the decisions a build makes from it.

use vstd::prelude::*;
use vstd::string::*;

verus! {

/// The options of one build.
#[derive(Debug)]
pub struct PkscOptions {
    /// The task to run after the build script, if any.
    pub task: Option<String>,
    /// The arguments of the task.
    pub args: Option<Vec<String>>,
    /// Whether the JIT compiler stays on.
    pub enable_jit: bool,
    /// The path of the build script, for messages.
    pub filepath: Option<String>,
}

/// How the task of a build is started.
#[derive(Debug)]
pub enum TaskCall {
    /// No task was asked for.
    NoTask,
    /// `runtask` is called with the task and its arguments as a list.
    WithArguments { task: String, args: Vec<String> },
    /// This source is run: `runtask "<task>"`.
    Script { source: String },
}

/// The chunk name under which the build script runs: `@[<path>]`, with
/// `unknown` when no path is known.
pub fn chunk_name(filepath: &Option<String>) -> (res: String)
    ensures
        res@ == "@["@ + (match filepath {
            Some(p) => p@,
            None => "unknown"@,
        }) + "]"@,
{
    let mut res = "@[".to_owned();
    match filepath {
        Some(p) => res.append(p.as_str()),
        None => res.append("unknown"),
    }
    res.append("]");
    res
}

/// How the task named in the options is started: with its arguments when
/// there are any, else through a one-line script.
pub fn task_call(task: Option<String>, args: Option<Vec<String>>) -> (res: TaskCall)
    ensures
        match (task, args) {
            (None, _) => res is NoTask,
            (Some(t), Some(a)) => res matches TaskCall::WithArguments { task: t2, args: a2 } && t2 == t
                && a2 == a,
            (Some(t), None) => res matches TaskCall::Script { source } && source@ == "runtask \""@
                + t@ + "\""@,
        },
{
    match task {
        None => TaskCall::NoTask,
        Some(t) => match args {
            Some(a) => TaskCall::WithArguments { task: t, args: a },
            None => {
                let mut source = "runtask \"".to_owned();
                source.append(t.as_str());
                source.append("\"");
                TaskCall::Script { source }
            },
        },
    }
}

} // verus!
