//! The environment of a shell session: a link of its own to the active
//! version, and the lines that make a shell use it.

use vstd::prelude::*;
use crate::config::JvcConfig;
use crate::error::JvcError;
use crate::loglevel::{LogLevel, level_name};
use crate::path::{join, join_path};
use crate::provider::{Provider, provider_code};
use crate::shell::shell::{AnyShell, Shell};
use crate::text::{decimal, decimal_text, signed_decimal, signed_decimal_text};

verus! {

/// The env command: write the settings for a shell session.
#[derive(Debug)]
pub struct Env {
    /// The shell to write for. Without it the shell that started the
    /// program is looked for.
    pub shell: Option<AnyShell>,
}

/// The name of the link of the session that the process `pid` began at
/// the time `millis`, in milliseconds since 1970.
pub open spec fn symlink_name(pid: u32, millis: i64) -> Seq<char> {
    "jvc_shell_"@ + decimal(pid as nat) + "_"@ + signed_decimal(millis as int)
}

/// The path of a session's link in the directory for temporary files.
pub open spec fn symlink_path(sys_temp_dir: Seq<char>, pid: u32, millis: i64) -> Seq<char> {
    join(sys_temp_dir, symlink_name(pid, millis))
}

/// The directory of the active version's programs, below a session's link.
pub open spec fn bin_path(shell_path: Seq<char>) -> Seq<char> {
    join(join(shell_path, "installation"@), "bin"@)
}

/// The shell to write for: the one that was named, or else the one that
/// was found; without either there is none.
pub open spec fn shell_choice(named: Option<AnyShell>, detected: Option<AnyShell>) -> Result<
    AnyShell,
    JvcError,
> {
    match named {
        Some(shell) => Ok(shell),
        None => match detected {
            Some(shell) => Ok(shell),
            None => Err(JvcError::ShellNotDetected),
        },
    }
}

/// The lines that make a session of `shell` use the active version: the
/// directory of its programs is put first on the search path, and the
/// session's link, the program's root directory, the log level and the
/// provider are set as variables.
pub open spec fn env_lines(
    shell: AnyShell,
    shell_path: Seq<char>,
    search_path: Seq<char>,
    jvc_dir: Seq<char>,
    log_level: LogLevel,
    provider: Provider,
) -> Seq<Seq<char>> {
    seq![
        shell.path_export(bin_path(shell_path), search_path),
        shell.env_setting("JVC_SHELL_PATH"@, shell_path),
        shell.env_setting("JVC_DIR"@, jvc_dir),
        shell.env_setting("JVC_LOGLEVEL"@, level_name(log_level)),
        shell.env_setting("JVC_PROVIDER"@, provider_code(provider)),
    ]
}

/// The path of the link of the session that the process `pid` began at
/// the time `millis`. Where that path is taken, the caller asks again at a
/// later time.
pub fn create_symlink_path(sys_temp_dir: &str, pid: u32, millis: i64) -> (path: String)
    ensures
        path@ == symlink_path(sys_temp_dir@, pid, millis),
{
    let temp_dir_name = "jvc_shell_".to_owned().concat(decimal_text(pid as u64).as_str()).concat(
        "_",
    ).concat(signed_decimal_text(millis).as_str());
    join_path(sys_temp_dir, temp_dir_name.as_str())
}

/// The directory of the active version's programs, below the session's link `shell_path`.
pub fn bin_path_of(shell_path: &str) -> (path: String)
    ensures
        path@ == bin_path(shell_path@),
{
    join_path(join_path(shell_path, "installation").as_str(), "bin")
}

impl Env {
    /// The shell to write for, where `detected` is the shell that was
    /// found to have started the program, if one was found.
    pub fn shell_or(&self, detected: Option<AnyShell>) -> (shell: Result<AnyShell, JvcError>)
        ensures
            shell == shell_choice(self.shell, detected),
    {
        match self.shell {
            Some(shell) => Ok(shell),
            None => match detected {
                Some(shell) => Ok(shell),
                None => Err(JvcError::ShellNotDetected),
            },
        }
    }

    /// The lines to print for a session of `shell` whose link is
    /// `shell_path`, where `search_path` is the search path of the process
    /// with the directory of the active version's programs put first, and
    /// `jvc_dir` is the program's root directory.
    pub fn lines(
        shell: &AnyShell,
        shell_path: &str,
        search_path: &str,
        jvc_dir: &str,
        config: &JvcConfig,
    ) -> (lines: Vec<String>)
        ensures
            lines.deep_view() == env_lines(
                *shell,
                shell_path@,
                search_path@,
                jvc_dir@,
                config.log_level,
                config.java_provider,
            ),
    {
        let mut lines: Vec<String> = Vec::new();
        lines.push(shell.export_path(bin_path_of(shell_path).as_str(), search_path));
        lines.push(shell.set_env_var("JVC_SHELL_PATH", shell_path));
        lines.push(shell.set_env_var("JVC_DIR", jvc_dir));
        lines.push(shell.set_env_var("JVC_LOGLEVEL", config.log_level.name().as_str()));
        lines.push(shell.set_env_var("JVC_PROVIDER", config.java_provider.as_str().as_str()));
        assert(lines.deep_view() =~= env_lines(
            *shell,
            shell_path@,
            search_path@,
            jvc_dir@,
            config.log_level,
            config.java_provider,
        ));
        lines
    }
}

} // verus!
