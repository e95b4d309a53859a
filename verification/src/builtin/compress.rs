//! Unpacking archives (`extract`): which format to read, and where the
//! unpacked files go.

use vstd::prelude::*;
use vstd::string::*;
use crate::builtin::path::{spec_file_stem, LuaPath};
use crate::paths::{components, join, spec_components, spec_join};
use crate::registry::Builtin;
use crate::text::str_eq;

verus! {

/// The archive formats that `extract` reads.
#[derive(Debug, Clone, Copy, PartialEq, Eq, Structural)]
pub enum ArchiveFormat {
    Tar,
    Gz,
    TarGz,
    Zip,
}

/// Errors of `extract` that do not come from the file system.
#[derive(Debug)]
pub enum CompressError {
    /// The format is not one of `tar`, `gz`, `tar_gz`, `zip`.
    UnknownFormat { name: String },
    /// A gzip file whose path has no file name to unpack it under.
    InvalidFileName,
}

impl CompressError {
    /// The message that accompanies the error.
    pub fn message(&self) -> (res: String)
        ensures
            res@ == (match self {
                CompressError::UnknownFormat { name } => "Unknown compression format: "@ + name@,
                CompressError::InvalidFileName => "Invalid file name"@,
            }),
    {
        match self {
            CompressError::UnknownFormat { name } => {
                let mut res = "Unknown compression format: ".to_owned();
                res.append(name.as_str());
                res
            },
            CompressError::InvalidFileName => "Invalid file name".to_owned(),
        }
    }
}

pub open spec fn archive_format_named(name: Seq<char>) -> Option<ArchiveFormat> {
    if name == "tar"@ {
        Some(ArchiveFormat::Tar)
    } else if name == "gz"@ {
        Some(ArchiveFormat::Gz)
    } else if name == "tar_gz"@ {
        Some(ArchiveFormat::TarGz)
    } else if name == "zip"@ {
        Some(ArchiveFormat::Zip)
    } else {
        None
    }
}

/// The archive format named by `format`.
pub fn archive_format(format: &str) -> (res: Result<ArchiveFormat, CompressError>)
    ensures
        match archive_format_named(format@) {
            Some(f) => res matches Ok(g) && g == f,
            None => res matches Err(CompressError::UnknownFormat { name }) && name@ == format@,
        },
{
    if str_eq(format, "tar") {
        Ok(ArchiveFormat::Tar)
    } else if str_eq(format, "gz") {
        Ok(ArchiveFormat::Gz)
    } else if str_eq(format, "tar_gz") {
        Ok(ArchiveFormat::TarGz)
    } else if str_eq(format, "zip") {
        Ok(ArchiveFormat::Zip)
    } else {
        Err(CompressError::UnknownFormat { name: format.to_owned() })
    }
}

/// Where an archive entry is unpacked: its path joined onto the output
/// directory.
pub fn entry_destination(path_out: &str, entry_path: &str) -> (res: String)
    ensures
        res@ == spec_join(path_out@, entry_path@),
{
    join(path_out, entry_path)
}

/// The directory that a tar archive unpacks into when its entries share a
/// top directory: the first component of an entry joined onto the output
/// directory (if that turns out to be a directory, the caller reports it).
pub fn top_level_candidate(path_out: &str, entry_path: &str) -> (res: Option<String>)
    ensures
        spec_components(entry_path@).len() == 0 ==> res is None,
        spec_components(entry_path@).len() > 0 ==> (res matches Some(s) && s@ == spec_join(
            path_out@,
            spec_components(entry_path@)[0],
        )),
{
    let c = components(entry_path);
    if c.len() == 0 {
        None
    } else {
        assert(c[0]@ == c.deep_view()[0]);
        Some(join(path_out, c[0].as_str()))
    }
}

/// Where a gzip file is unpacked: its file stem joined onto the output
/// directory.
pub fn gz_output_path(path_in: &str, path_out: &str) -> (res: Result<String, CompressError>)
    ensures
        match spec_file_stem(path_in@) {
            Some(stem) => res matches Ok(s) && s@ == spec_join(path_out@, stem),
            None => res matches Err(CompressError::InvalidFileName),
        },
{
    let p = LuaPath(path_in.to_owned());
    match p.file_stem() {
        Some(stem) => Ok(join(path_out, stem.as_str())),
        None => Err(CompressError::InvalidFileName),
    }
}

/// One step of finding the directory a tar archive unpacks into: a choice
/// once made stays; otherwise a candidate that is an existing directory is
/// taken.
pub fn tar_output_step(chosen: Option<String>, candidate: Option<String>, candidate_is_dir: bool) -> (res: Option<
    String,
>)
    ensures
        chosen is Some ==> res == chosen,
        chosen is None && candidate is Some && candidate_is_dir ==> res == candidate,
        chosen is None && !(candidate is Some && candidate_is_dir) ==> res is None,
{
    match chosen {
        Some(c) => Some(c),
        None => if candidate_is_dir {
            candidate
        } else {
            None
        },
    }
}

/// The directory a zip archive unpacks into, judged on one entry: only the
/// first entry counts, and only if it unpacked to a directory.
pub fn zip_output_dir(index: usize, destination: String, is_dir: bool) -> (res: Option<String>)
    ensures
        index == 0 && is_dir ==> res == Some(destination),
        !(index == 0 && is_dir) ==> res is None,
{
    if index == 0 && is_dir {
        Some(destination)
    } else {
        None
    }
}

/// The path `extract` returns: the directory found inside the archive, or
/// else the output directory.
pub fn extracted_path(path_out: String, found: Option<String>) -> (res: String)
    ensures
        res == match found {
            Some(f) => f,
            None => path_out,
        },
{
    match found {
        Some(f) => f,
        None => path_out,
    }
}

/// The builtins of this module, in the order they are bound.
pub fn register() -> (res: Vec<Builtin>)
    ensures
        res@ == seq![Builtin::Extract],
{
    vec![Builtin::Extract]
}

} // verus!
