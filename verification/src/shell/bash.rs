use vstd::prelude::*;
use crate::shell::shell::{Shell, debug_quoted, quoted};

verus! {

/// The Bourne-again shell.
#[derive(Debug, Clone, Copy, PartialEq, Eq, Structural)]
pub struct Bash;

/// The line that puts `path` first on the search path of a Bourne shell.
pub open spec fn posix_path_export(path: Seq<char>) -> Seq<char> {
    "export PATH="@ + debug_quoted(path) + ":$PATH"@
}

/// The line that sets a variable in a Bourne shell.
pub open spec fn posix_env_setting(name: Seq<char>, value: Seq<char>) -> Seq<char> {
    "export "@ + name + "="@ + debug_quoted(value)
}

/// The line that puts `path` first on the search path of a Bourne shell.
pub fn posix_export_path(path: &str) -> (line: String)
    ensures
        line@ == posix_path_export(path@),
{
    "export PATH=".to_owned().concat(quoted(path).as_str()).concat(":$PATH")
}

/// The line that sets a variable in a Bourne shell.
pub fn posix_set_env_var(name: &str, value: &str) -> (line: String)
    ensures
        line@ == posix_env_setting(name@, value@),
{
    "export ".to_owned().concat(name).concat("=").concat(quoted(value).as_str())
}

impl Shell for Bash {
    open spec fn path_export(&self, path: Seq<char>, search_path: Seq<char>) -> Seq<char> {
        posix_path_export(path)
    }

    open spec fn env_setting(&self, name: Seq<char>, value: Seq<char>) -> Seq<char> {
        posix_env_setting(name, value)
    }

    open spec fn needs_search_path(&self) -> bool {
        false
    }

    fn uses_search_path(&self) -> (uses: bool) {
        false
    }

    fn export_path(&self, path: &str, _search_path: &str) -> (line: String) {
        posix_export_path(path)
    }

    fn set_env_var(&self, name: &str, value: &str) -> (line: String) {
        posix_set_env_var(name, value)
    }
}

} // verus!
