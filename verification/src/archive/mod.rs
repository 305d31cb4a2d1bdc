//! Archive ingestion: which kind of archive an artifact is, and what an
//! unpacked archive must look like.

use vstd::prelude::*;
use crate::error::JvcError;
use crate::path::{extension, extension_of, join, join_path, opt_text};
use crate::text::same_text;

verus! {

/// The kinds of archive that can be unpacked.
#[derive(Debug, Clone, Copy, PartialEq, Eq, Structural)]
pub enum ArchiveKind {
    /// A zip archive.
    Zip,
    /// A tar archive compressed with gzip.
    Gzip,
}

/// An archive to unpack: its kind, the file that holds it, and the
/// directory that takes its content.
#[derive(Debug)]
pub struct Extraction {
    pub kind: ArchiveKind,
    pub from: String,
    pub to: String,
}

/// What an `Extraction` holds, as plain values.
pub struct ExtractionView {
    pub kind: ArchiveKind,
    pub from: Seq<char>,
    pub to: Seq<char>,
}

impl View for Extraction {
    type V = ExtractionView;

    open spec fn view(&self) -> ExtractionView {
        ExtractionView { kind: self.kind, from: self.from@, to: self.to@ }
    }
}

/// A directory entry to rename.
#[derive(Debug)]
pub struct Rename {
    pub from: String,
    pub to: String,
}

/// What a `Rename` holds, as plain values.
pub struct RenameView {
    pub from: Seq<char>,
    pub to: Seq<char>,
}

impl View for Rename {
    type V = RenameView;

    open spec fn view(&self) -> RenameView {
        RenameView { from: self.from@, to: self.to@ }
    }
}

/// The kind of archive that an extension tells: `zip` a zip archive, `gz` a
/// gzip-compressed tar archive. No extension, and any other, tells none.
pub open spec fn kind_of_extension(ext: Option<Seq<char>>) -> Result<ArchiveKind, JvcError> {
    match ext {
        Some(e) => if e == "zip"@ {
            Ok(ArchiveKind::Zip)
        } else if e == "gz"@ {
            Ok(ArchiveKind::Gzip)
        } else {
            Err(JvcError::UnsupportedArchiveKind)
        },
        None => Err(JvcError::UnsupportedArchiveKind),
    }
}

/// The kind of archive that a package's name tells by its final extension.
pub open spec fn archive_kind(package_name: Seq<char>) -> Result<ArchiveKind, JvcError> {
    kind_of_extension(extension(package_name))
}

/// The name that the root of an unpacked package is given.
pub open spec fn canonical_name() -> Seq<char> {
    "installation"@
}

/// The single entry of a directory; a directory with no entry, or with
/// more than one, breaks the contract of an unpacked archive.
pub open spec fn single_entry(entries: Seq<Seq<char>>) -> Result<Seq<char>, JvcError> {
    if entries.len() == 1 {
        Ok(entries[0])
    } else {
        Err(JvcError::DirectoryContractViolation)
    }
}

/// The renaming that gives the entry `package_name` of `install_dir` the canonical name.
pub open spec fn canonical_rename(install_dir: Seq<char>, package_name: Seq<char>) -> RenameView {
    RenameView { from: join(install_dir, package_name), to: join(install_dir, canonical_name()) }
}

/// The view of a result that holds an extraction.
pub open spec fn extraction_result(r: Result<Extraction, JvcError>) -> Result<ExtractionView, JvcError> {
    match r {
        Ok(x) => Ok(x@),
        Err(e) => Err(e),
    }
}

/// The view of a result that holds a text.
pub open spec fn entry_result(r: Result<String, JvcError>) -> Result<Seq<char>, JvcError> {
    match r {
        Ok(s) => Ok(s@),
        Err(e) => Err(e),
    }
}

/// The final extension of a file's name.
pub fn get_extension_from_filename(filename: &str) -> (ext: Option<String>)
    ensures
        opt_text(ext) == extension(filename@),
{
    extension_of(filename)
}

/// The kind of archive that an extension tells.
pub fn kind_for(ext: &Option<String>) -> (kind: Result<ArchiveKind, JvcError>)
    ensures
        kind == kind_of_extension(opt_text(*ext)),
{
    match ext {
        Some(e) => {
            if same_text(e.as_str(), "zip") {
                Ok(ArchiveKind::Zip)
            } else if same_text(e.as_str(), "gz") {
                Ok(ArchiveKind::Gzip)
            } else {
                Err(JvcError::UnsupportedArchiveKind)
            }
        },
        None => Err(JvcError::UnsupportedArchiveKind),
    }
}

/// The unpacking of the zip archive `from` into `to`.
pub fn unarchive_zip(from: String, to: String) -> (x: Extraction)
    ensures
        x@ == (ExtractionView { kind: ArchiveKind::Zip, from: from@, to: to@ }),
{
    Extraction { kind: ArchiveKind::Zip, from, to }
}

/// The unpacking of the gzip-compressed tar archive `from` into `to`.
pub fn unarchive_gzip(from: String, to: String) -> (x: Extraction)
    ensures
        x@ == (ExtractionView { kind: ArchiveKind::Gzip, from: from@, to: to@ }),
{
    Extraction { kind: ArchiveKind::Gzip, from, to }
}

/// How the artifact `from`, which the provider calls `package_name`, is
/// unpacked into `to`. Nothing but the final extension of `package_name`
/// decides the kind; a name without a supported extension is refused with
/// `UnsupportedArchiveKind`.
pub fn unarchive(package_name: &str, from: String, to: String) -> (r: Result<Extraction, JvcError>)
    ensures
        extraction_result(r) == match archive_kind(package_name@) {
            Ok(kind) => Ok::<ExtractionView, JvcError>(ExtractionView { kind, from: from@, to: to@ }),
            Err(e) => Err::<ExtractionView, JvcError>(e),
        },
{
    let ext = get_extension_from_filename(package_name);
    match kind_for(&ext) {
        Ok(ArchiveKind::Zip) => Ok(unarchive_zip(from, to)),
        Ok(ArchiveKind::Gzip) => Ok(unarchive_gzip(from, to)),
        Err(e) => Err(e),
    }
}

/// The root of an unpacked package, given the entries of the directory
/// that it was unpacked into: the one entry there is. Any other number of
/// entries is refused with `DirectoryContractViolation`.
pub fn package_root(entries: &Vec<String>) -> (root: Result<String, JvcError>)
    ensures
        entry_result(root) == single_entry(entries.deep_view()),
{
    if entries.len() == 1 {
        Ok(entries[0].clone())
    } else {
        Err(JvcError::DirectoryContractViolation)
    }
}

/// The renaming that gives the entry `package_name` of `install_dir` the
/// canonical name `installation`.
pub fn rename_package(install_dir: &str, package_name: &str) -> (rename: Rename)
    ensures
        rename@ == canonical_rename(install_dir@, package_name@),
{
    Rename {
        from: join_path(install_dir, package_name),
        to: join_path(install_dir, "installation"),
    }
}

} // verus!
