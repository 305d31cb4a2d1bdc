//! The failures that the library reports.

use vstd::prelude::*;

verus! {

/// Why an operation of the library did not succeed. None of these is retried
/// by the library itself.
#[derive(Debug, Clone, Copy, PartialEq, Eq, Structural, Hash)]
pub enum JvcError {
    /// A request could not be sent or its answer could not be received.
    NetworkError,
    /// An answer did not have the expected shape.
    SchemaError,
    /// No build could be resolved: no candidate, or a redirect hop was missing or malformed.
    ResolutionError,
    /// The artifact's name does not end in a supported archive extension.
    UnsupportedArchiveKind,
    /// The artifact could not be unpacked.
    ArchiveCorrupt,
    /// An unpacked archive did not hold exactly one top-level entry.
    DirectoryContractViolation,
    /// No installed version has the requested number.
    VersionNotInstalled,
    /// An alias name reads as a version number.
    InvalidAliasName,
    /// A provider code names no known provider.
    UnknownProviderCode,
    /// A file or directory could not be read or written.
    IOError,
    /// A directory name is not made of two pieces, or of three with `lts` in the middle.
    MalformedVersionName,
    /// A text that should be a version number from 0 to 255 is not one.
    InvalidVersionNumber,
    /// No root directory is configured and the user's home is not known.
    NoBaseDirectory,
    /// The provider's listing lacks the version that was asked for.
    VersionNotOffered,
    /// No shell was named and none was found among the ancestors of the process.
    ShellNotDetected,
}

impl JvcError {
    /// A sentence for the user that describes the failure.
    pub fn message(&self) -> (text: String)
        ensures
            text@ == error_message(*self),
    {
        match self {
            JvcError::NetworkError => "The request to the provider failed".to_owned(),
            JvcError::SchemaError => "The provider's answer has an unexpected shape".to_owned(),
            JvcError::ResolutionError => "Cannot compose download url for selected version".to_owned(),
            JvcError::UnsupportedArchiveKind => "Unknown archive type".to_owned(),
            JvcError::ArchiveCorrupt => "Cannot extract archive".to_owned(),
            JvcError::DirectoryContractViolation => "Cannot get extracted package.".to_owned(),
            JvcError::VersionNotInstalled => "Cannot find requested version!".to_owned(),
            JvcError::InvalidAliasName => "Alias name should not be a version number".to_owned(),
            JvcError::UnknownProviderCode => "Cannot parse provider name".to_owned(),
            JvcError::IOError => "Cannot read or write the file system".to_owned(),
            JvcError::MalformedVersionName => "Cannot read version from disk".to_owned(),
            JvcError::InvalidVersionNumber => "Cannot parse string to major version".to_owned(),
            JvcError::NoBaseDirectory => "Cannot get default base directory".to_owned(),
            JvcError::VersionNotOffered => "Cannot find a version to match your selection".to_owned(),
            JvcError::ShellNotDetected => "Cannot detect your shell. Please provide your shell as option.".to_owned(),
        }
    }
}

/// The sentence that `JvcError::message` gives for each failure.
pub open spec fn error_message(e: JvcError) -> Seq<char> {
    match e {
        JvcError::NetworkError => "The request to the provider failed"@,
        JvcError::SchemaError => "The provider's answer has an unexpected shape"@,
        JvcError::ResolutionError => "Cannot compose download url for selected version"@,
        JvcError::UnsupportedArchiveKind => "Unknown archive type"@,
        JvcError::ArchiveCorrupt => "Cannot extract archive"@,
        JvcError::DirectoryContractViolation => "Cannot get extracted package."@,
        JvcError::VersionNotInstalled => "Cannot find requested version!"@,
        JvcError::InvalidAliasName => "Alias name should not be a version number"@,
        JvcError::UnknownProviderCode => "Cannot parse provider name"@,
        JvcError::IOError => "Cannot read or write the file system"@,
        JvcError::MalformedVersionName => "Cannot read version from disk"@,
        JvcError::InvalidVersionNumber => "Cannot parse string to major version"@,
        JvcError::NoBaseDirectory => "Cannot get default base directory"@,
        JvcError::VersionNotOffered => "Cannot find a version to match your selection"@,
        JvcError::ShellNotDetected => "Cannot detect your shell. Please provide your shell as option."@,
    }
}

} // verus!
