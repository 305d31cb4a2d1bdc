//! Choosing the active version.

use vstd::prelude::*;
use crate::commands::alias::Alias;

verus! {

/// The default command: make the version or alias `to_version` the active one.
#[derive(Debug)]
pub struct Default {
    /// The number of an installed version, or the name of an alias.
    pub to_version: String,
}

impl Default {
    /// The alias command that does the work: the reserved alias `default`
    /// marks the active version.
    pub fn alias(&self) -> (alias: Alias)
        ensures
            alias.name@ == "default"@,
            alias.to_version@ == self.to_version@,
    {
        Alias { name: "default".to_owned(), to_version: self.to_version.clone() }
    }
}

} // verus!
