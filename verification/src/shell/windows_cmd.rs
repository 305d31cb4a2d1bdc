use vstd::prelude::*;
use crate::shell::shell::Shell;

verus! {

/// The command prompt of Windows.
#[derive(Debug, Clone, Copy, PartialEq, Eq, Structural)]
pub struct WindowsCMD;

/// The line that sets a variable in the command prompt.
pub open spec fn cmd_env_setting(name: Seq<char>, value: Seq<char>) -> Seq<char> {
    "SET "@ + name + "="@ + value
}

impl WindowsCMD {
    /// The line that sets the variable `name` to `value`.
    pub fn set_var(&self, name: &str, value: &str) -> (line: String)
        ensures
            line@ == cmd_env_setting(name@, value@),
    {
        "SET ".to_owned().concat(name).concat("=").concat(value)
    }
}

impl Shell for WindowsCMD {
    open spec fn path_export(&self, path: Seq<char>, search_path: Seq<char>) -> Seq<char> {
        cmd_env_setting("PATH"@, search_path)
    }

    open spec fn env_setting(&self, name: Seq<char>, value: Seq<char>) -> Seq<char> {
        cmd_env_setting(name, value)
    }

    open spec fn needs_search_path(&self) -> bool {
        true
    }

    fn uses_search_path(&self) -> (uses: bool) {
        true
    }

    fn export_path(&self, _path: &str, search_path: &str) -> (line: String) {
        self.set_var("PATH", search_path)
    }

    fn set_env_var(&self, name: &str, value: &str) -> (line: String) {
        self.set_var(name, value)
    }
}

} // verus!
