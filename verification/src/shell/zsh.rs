use vstd::prelude::*;
use crate::shell::bash::{
    posix_env_setting, posix_export_path, posix_path_export, posix_set_env_var,
};
use crate::shell::shell::Shell;

verus! {

/// The Z shell.
#[derive(Debug, Clone, Copy, PartialEq, Eq, Structural)]
pub struct Zsh;

impl Shell for Zsh {
    open spec fn path_export(&self, path: Seq<char>, search_path: Seq<char>) -> Seq<char> {
        posix_path_export(path)
    }

    open spec fn env_setting(&self, name: Seq<char>, value: Seq<char>) -> Seq<char> {
        posix_env_setting(name, value)
    }

    open spec fn needs_search_path(&self) -> bool {
        false
    }

    fn uses_search_path(&self) -> (uses: bool) {
        false
    }

    fn export_path(&self, path: &str, _search_path: &str) -> (line: String) {
        posix_export_path(path)
    }

    fn set_env_var(&self, name: &str, value: &str) -> (line: String) {
        posix_set_env_var(name, value)
    }
}

} // verus!
