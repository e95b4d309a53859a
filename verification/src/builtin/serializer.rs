//! Converting between script values and serialized text (`into`, `from`).

use vstd::prelude::*;
use vstd::string::*;
use crate::registry::Builtin;
use crate::text::str_eq;

verus! {

/// The serialization formats.
#[derive(Debug, Clone, Copy, PartialEq, Eq, Structural)]
pub enum SerialFormat {
    Json,
    Toml,
    Yaml,
    Ini,
}

/// A format that is not offered.
#[derive(Debug)]
pub struct UnsupportedFormat;

impl UnsupportedFormat {
    /// The message that accompanies the error.
    pub fn message(&self) -> (res: String)
        ensures
            res@ == "Unsupported serialization format"@,
    {
        "Unsupported serialization format".to_owned()
    }
}

pub open spec fn serial_format_named(name: Seq<char>) -> Option<SerialFormat> {
    if name == "json"@ {
        Some(SerialFormat::Json)
    } else if name == "toml"@ {
        Some(SerialFormat::Toml)
    } else if name == "yaml"@ {
        Some(SerialFormat::Yaml)
    } else if name == "ini"@ {
        Some(SerialFormat::Ini)
    } else {
        None
    }
}

/// The format named by `format`.
pub fn serial_format(format: &str) -> (res: Result<SerialFormat, UnsupportedFormat>)
    ensures
        match serial_format_named(format@) {
            Some(f) => res matches Ok(g) && g == f,
            None => res is Err,
        },
{
    if str_eq(format, "json") {
        Ok(SerialFormat::Json)
    } else if str_eq(format, "toml") {
        Ok(SerialFormat::Toml)
    } else if str_eq(format, "yaml") {
        Ok(SerialFormat::Yaml)
    } else if str_eq(format, "ini") {
        Ok(SerialFormat::Ini)
    } else {
        Err(UnsupportedFormat)
    }
}

/// What the walk that prepares a value for serialization sees of it.
#[derive(Debug, Clone, Copy, PartialEq, Eq, Structural)]
pub enum ValueKind {
    /// A table; `serializer` tells whether its metatable has a
    /// `__serialize` function.
    Table { serializer: bool },
    /// A userdata; `serializer` as for a table.
    UserData { serializer: bool },
    /// Any other value.
    Other,
}

/// What the walk does with a value.
#[derive(Debug, Clone, Copy, PartialEq, Eq, Structural)]
pub enum SerializeStep {
    /// Call `__serialize` on the value and walk what it returns.
    CallAndWalk,
    /// Build a new table whose values are the walked values of each pair.
    CopyPairs,
    /// Call `__serialize` on the value and take what it returns as is.
    CallAndReturn,
    /// Put an empty table in its place.
    EmptyTable,
    /// Keep the value.
    Unchanged,
}

pub open spec fn spec_serialize_step(kind: ValueKind) -> SerializeStep {
    match kind {
        ValueKind::Table { serializer } => if serializer {
            SerializeStep::CallAndWalk
        } else {
            SerializeStep::CopyPairs
        },
        ValueKind::UserData { serializer } => if serializer {
            SerializeStep::CallAndReturn
        } else {
            SerializeStep::EmptyTable
        },
        ValueKind::Other => SerializeStep::Unchanged,
    }
}

/// The step the walk takes for a value of the given kind.
pub fn serialize_step(kind: ValueKind) -> (res: SerializeStep)
    ensures
        res == spec_serialize_step(kind),
{
    match kind {
        ValueKind::Table { serializer } => if serializer {
            SerializeStep::CallAndWalk
        } else {
            SerializeStep::CopyPairs
        },
        ValueKind::UserData { serializer } => if serializer {
            SerializeStep::CallAndReturn
        } else {
            SerializeStep::EmptyTable
        },
        ValueKind::Other => SerializeStep::Unchanged,
    }
}

/// The builtins of this module, in the order they are bound.
pub fn register() -> (res: Vec<Builtin>)
    ensures
        res@ == seq![Builtin::Into, Builtin::From],
{
    vec![Builtin::Into, Builtin::From]
}

} // verus!
