//! Removing an installed version.

use vstd::prelude::*;
use crate::commands::list::{VersionPath, VersionPathView, find_version, first_with_number};
use crate::error::JvcError;
use crate::text::{parse_unsigned, parse_u8};

verus! {

/// The remove command: remove the installed version with the number `version`.
#[derive(Debug)]
pub struct Remove {
    /// The number of the version, as the user wrote it.
    pub version: String,
}

/// The installed version that is to be removed for the selector
/// `version`. A selector that is no version number is refused with
/// `InvalidVersionNumber`; a number that no installed version has ends in
/// `VersionNotInstalled`.
pub open spec fn removal(version: Seq<char>, installed: Seq<Seq<char>>, installation_dir: Seq<char>) -> Result<
    VersionPathView,
    JvcError,
> {
    match parse_unsigned(version, 255) {
        Some(n) => match first_with_number(installed, n as u8, installation_dir) {
            Some(found) => Ok(found),
            None => Err(JvcError::VersionNotInstalled),
        },
        None => Err(JvcError::InvalidVersionNumber),
    }
}

/// The view of a result that holds an installed version.
pub open spec fn removal_result(r: Result<VersionPath, JvcError>) -> Result<VersionPathView, JvcError> {
    match r {
        Ok(p) => Ok(p@),
        Err(e) => Err(e),
    }
}

impl Remove {
    /// The installed version whose directory is to be removed, given the
    /// names of the installed versions.
    pub fn target(&self, installed: &Vec<String>, installation_dir: &str) -> (r: Result<
        VersionPath,
        JvcError,
    >)
        ensures
            removal_result(r) == removal(self.version@, installed.deep_view(), installation_dir@),
    {
        match parse_u8(self.version.as_str()) {
            Some(version) => match find_version(version, installed, installation_dir) {
                Some(applicable_version) => Ok(applicable_version),
                None => Err(JvcError::VersionNotInstalled),
            },
            None => Err(JvcError::InvalidVersionNumber),
        }
    }
}

} // verus!
