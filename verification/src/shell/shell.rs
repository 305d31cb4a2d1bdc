//! What every shell offers, and the shells by name.

use vstd::prelude::*;
use crate::shell::bash::Bash;
use crate::shell::powershell::PowerShell;
use crate::shell::windows_cmd::WindowsCMD;
use crate::shell::zsh::Zsh;
use crate::text::same_text;

verus! {

/// What `format!` makes of a text with `{:?}`: the text between double
/// quotes, with the characters that a Rust string literal cannot hold as
/// they are written as escapes.
pub uninterp spec fn debug_quoted(text: Seq<char>) -> Seq<char>;

/// Formats `text` with `{:?}`, the `Debug` form of `str` in std. The
/// result depends on nothing but the text.
#[verifier::external_body]
pub(crate) fn quoted(text: &str) -> (q: String)
    ensures
        q@ == debug_quoted(text@),
{
    format!("{:?}", text)
}

/// A shell for which environment settings can be written.
pub trait Shell {
    /// The line that puts `path` first on the search path, where
    /// `search_path` is the whole search path with `path` put first, in
    /// the system's form.
    spec fn path_export(&self, path: Seq<char>, search_path: Seq<char>) -> Seq<char>;

    /// The line that sets the variable `name` to `value`.
    spec fn env_setting(&self, name: Seq<char>, value: Seq<char>) -> Seq<char>;

    /// Whether the line that exports a path holds the whole search path.
    /// A shell that can refer to its own search path does without it.
    spec fn needs_search_path(&self) -> bool;

    /// Whether `export_path` reads its `search_path`.
    fn uses_search_path(&self) -> (uses: bool)
        ensures
            uses == self.needs_search_path(),
    ;

    /// The line that puts `path` first on the search path.
    fn export_path(&self, path: &str, search_path: &str) -> (line: String)
        ensures
            line@ == self.path_export(path@, search_path@),
    ;

    /// The line that sets the variable `name` to `value`.
    fn set_env_var(&self, name: &str, value: &str) -> (line: String)
        ensures
            line@ == self.env_setting(name@, value@),
    ;
}

/// One of the known shells.
#[derive(Debug, Clone, Copy, PartialEq, Eq, Structural)]
pub enum AnyShell {
    Bash(Bash),
    Zsh(Zsh),
    PowerShell(PowerShell),
    WindowsCMD(WindowsCMD),
}

impl Shell for AnyShell {
    open spec fn path_export(&self, path: Seq<char>, search_path: Seq<char>) -> Seq<char> {
        match self {
            AnyShell::Bash(s) => s.path_export(path, search_path),
            AnyShell::Zsh(s) => s.path_export(path, search_path),
            AnyShell::PowerShell(s) => s.path_export(path, search_path),
            AnyShell::WindowsCMD(s) => s.path_export(path, search_path),
        }
    }

    open spec fn env_setting(&self, name: Seq<char>, value: Seq<char>) -> Seq<char> {
        match self {
            AnyShell::Bash(s) => s.env_setting(name, value),
            AnyShell::Zsh(s) => s.env_setting(name, value),
            AnyShell::PowerShell(s) => s.env_setting(name, value),
            AnyShell::WindowsCMD(s) => s.env_setting(name, value),
        }
    }

    open spec fn needs_search_path(&self) -> bool {
        match self {
            AnyShell::Bash(s) => s.needs_search_path(),
            AnyShell::Zsh(s) => s.needs_search_path(),
            AnyShell::PowerShell(s) => s.needs_search_path(),
            AnyShell::WindowsCMD(s) => s.needs_search_path(),
        }
    }

    fn uses_search_path(&self) -> (uses: bool) {
        match self {
            AnyShell::Bash(s) => s.uses_search_path(),
            AnyShell::Zsh(s) => s.uses_search_path(),
            AnyShell::PowerShell(s) => s.uses_search_path(),
            AnyShell::WindowsCMD(s) => s.uses_search_path(),
        }
    }

    fn export_path(&self, path: &str, search_path: &str) -> (line: String) {
        match self {
            AnyShell::Bash(s) => s.export_path(path, search_path),
            AnyShell::Zsh(s) => s.export_path(path, search_path),
            AnyShell::PowerShell(s) => s.export_path(path, search_path),
            AnyShell::WindowsCMD(s) => s.export_path(path, search_path),
        }
    }

    fn set_env_var(&self, name: &str, value: &str) -> (line: String) {
        match self {
            AnyShell::Bash(s) => s.set_env_var(name, value),
            AnyShell::Zsh(s) => s.set_env_var(name, value),
            AnyShell::PowerShell(s) => s.set_env_var(name, value),
            AnyShell::WindowsCMD(s) => s.set_env_var(name, value),
        }
    }
}

/// The shell that a name on the command line stands for.
pub open spec fn shell_named(name: Seq<char>) -> Option<AnyShell> {
    if name == "cmd"@ {
        Some(AnyShell::WindowsCMD(WindowsCMD))
    } else if name == "zsh"@ {
        Some(AnyShell::Zsh(Zsh))
    } else if name == "bash"@ {
        Some(AnyShell::Bash(Bash))
    } else if name == "powershell"@ {
        Some(AnyShell::PowerShell(PowerShell))
    } else {
        None
    }
}

/// The names of the shells that can be chosen on a system.
pub open spec fn shell_names(windows: bool) -> Seq<Seq<char>> {
    if windows {
        seq!["cmd"@, "powershell"@, "bash"@, "zsh"@]
    } else {
        seq!["bash"@, "zsh"@, "powershell"@]
    }
}

/// Every shell that can be chosen is known by its name.
pub proof fn lemma_available_shells_are_known(windows: bool, i: int)
    requires
        0 <= i < shell_names(windows).len(),
    ensures
        shell_named(shell_names(windows)[i]) is Some,
{
}

/// The shell that `name` stands for, if any.
pub fn shell_of_name(name: &str) -> (shell: Option<AnyShell>)
    ensures
        shell == shell_named(name@),
{
    if same_text(name, "cmd") {
        Some(AnyShell::WindowsCMD(WindowsCMD))
    } else if same_text(name, "zsh") {
        Some(AnyShell::Zsh(Zsh))
    } else if same_text(name, "bash") {
        Some(AnyShell::Bash(Bash))
    } else if same_text(name, "powershell") {
        Some(AnyShell::PowerShell(PowerShell))
    } else {
        None
    }
}

/// The names of the shells that can be chosen, on Windows or elsewhere.
pub fn available_shells(windows: bool) -> (names: Vec<&'static str>)
    ensures
        names.len() == shell_names(windows).len(),
        forall|i: int| 0 <= i < names.len() ==> (#[trigger] names[i])@ == shell_names(windows)[i],
{
    if windows {
        vec!["cmd", "powershell", "bash", "zsh"]
    } else {
        vec!["bash", "zsh", "powershell"]
    }
}

impl std::str::FromStr for AnyShell {
    type Err = String;

    fn from_str(s: &str) -> (r: Result<AnyShell, String>)
        ensures
            match shell_named(s@) {
                Some(shell) => r == Ok::<AnyShell, String>(shell),
                None => r is Err,
            },
    {
        match shell_of_name(s) {
            Some(shell) => Ok(shell),
            None => Err("Cannot identify shell type: ".to_owned().concat(quoted(s).as_str())),
        }
    }
}

} // verus!
