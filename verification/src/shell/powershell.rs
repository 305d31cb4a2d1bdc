use vstd::prelude::*;
use crate::shell::shell::Shell;

verus! {

/// PowerShell.
#[derive(Debug, Clone, Copy, PartialEq, Eq, Structural)]
pub struct PowerShell;

/// The line that sets a variable in PowerShell.
pub open spec fn powershell_env_setting(name: Seq<char>, value: Seq<char>) -> Seq<char> {
    "$env:"@ + name + " = \""@ + value + "\""@
}

impl Shell for PowerShell {
    open spec fn path_export(&self, path: Seq<char>, search_path: Seq<char>) -> Seq<char> {
        powershell_env_setting("PATH"@, search_path)
    }

    open spec fn env_setting(&self, name: Seq<char>, value: Seq<char>) -> Seq<char> {
        powershell_env_setting(name, value)
    }

    open spec fn needs_search_path(&self) -> bool {
        true
    }

    fn uses_search_path(&self) -> (uses: bool) {
        true
    }

    fn export_path(&self, _path: &str, search_path: &str) -> (line: String) {
        self.set_env_var("PATH", search_path)
    }

    fn set_env_var(&self, name: &str, value: &str) -> (line: String) {
        "$env:".to_owned().concat(name).concat(" = \"").concat(value).concat("\"")
    }
}

} // verus!
