//! Detection from the output of `ps`, one process at a time.

use vstd::prelude::*;
use crate::shell::bash::Bash;
use crate::shell::powershell::PowerShell;
use crate::shell::shell::AnyShell;
use crate::shell::zsh::Zsh;
use crate::text::{
    parse_unsigned, parse_u32, same_text, split, split_text, strip_leading, without_leading, words,
    words_of, lemma_split_nonempty,
};

verus! {

/// What `ps` tells of one process.
#[derive(Debug)]
pub struct ProcInfo {
    /// The process that started it, where `ps` gave a number.
    pub parent_pid: Option<u32>,
    /// The command that it runs.
    pub command: String,
}

/// What a `ProcInfo` holds, as plain values.
pub struct ProcInfoView {
    pub parent_pid: Option<u32>,
    pub command: Seq<char>,
}

impl View for ProcInfo {
    type V = ProcInfoView;

    open spec fn view(&self) -> ProcInfoView {
        ProcInfoView { parent_pid: self.parent_pid, command: self.command@ }
    }
}

/// The view of an optional process.
pub open spec fn opt_info(info: Option<ProcInfo>) -> Option<ProcInfoView> {
    match info {
        Some(i) => Some(i@),
        None => None,
    }
}

/// The number that a text stands for, if it stands for one that fits 32 bits.
pub open spec fn number_of(text: Seq<char>) -> Option<u32> {
    match parse_unsigned(text, 0xFFFF_FFFF) {
        Some(n) => Some(n as u32),
        None => None,
    }
}

/// What the output of `ps -o ppid,comm` tells of a process: the first line
/// names the columns, and the first two words of the second line are the
/// parent's number and the command. Output without such a line tells nothing.
pub open spec fn proc_info_of(lines: Seq<Seq<char>>) -> Option<ProcInfoView> {
    if lines.len() >= 2 && words(lines[1]).len() >= 2 {
        Some(
            ProcInfoView {
                parent_pid: number_of(words(lines[1])[0]),
                command: words(lines[1])[1],
            },
        )
    } else {
        None
    }
}

/// The name of the program that a command runs: what follows the last
/// slash, once leading dashes are taken off.
pub open spec fn binary_name(command: Seq<char>) -> Seq<char> {
    split(without_leading(command, '-'), '/').last()
}

/// The shell that a program's name stands for.
pub open spec fn shell_of_binary(binary: Seq<char>) -> Option<AnyShell> {
    if binary == "sh"@ || binary == "bash"@ {
        Some(AnyShell::Bash(Bash))
    } else if binary == "zsh"@ {
        Some(AnyShell::Zsh(Zsh))
    } else if binary == "pwsh"@ {
        Some(AnyShell::PowerShell(PowerShell))
    } else {
        None
    }
}

/// One step of the search: a process to ask about, or the end.
#[derive(Debug, Clone, Copy, PartialEq, Eq, Structural)]
pub enum DetectStep {
    /// Ask about the process `pid`; `visited` processes were asked about before.
    Inspect { pid: u32, visited: u8 },
    /// The shell was found.
    Found(AnyShell),
    /// No shell was found.
    NotFound,
}

/// How many processes are asked about at most.
pub const MAX_VISITED: u8 = 10;

/// The first step of the search: ask about the process itself.
pub open spec fn detect_start(pid: u32) -> DetectStep {
    DetectStep::Inspect { pid, visited: 0 }
}

/// The step after `info` came in for the process that was asked about
/// when `visited` processes had been asked about before. A process that
/// runs a shell ends the search. Otherwise its parent is asked about next,
/// unless nothing is known of the process, it has no parent, or ten
/// processes have been asked about.
pub open spec fn detect_next(visited: u8, info: Option<ProcInfoView>) -> DetectStep {
    match info {
        Some(i) => match shell_of_binary(binary_name(i.command)) {
            Some(shell) => DetectStep::Found(shell),
            None => match i.parent_pid {
                Some(parent) => if visited + 1 < MAX_VISITED {
                    DetectStep::Inspect { pid: parent, visited: (visited + 1) as u8 }
                } else {
                    DetectStep::NotFound
                },
                None => DetectStep::NotFound,
            },
        },
        None => DetectStep::NotFound,
    }
}

/// What the output of `ps -o ppid,comm` for one process tells of it.
pub fn get_proc_info(lines: &Vec<String>) -> (info: Option<ProcInfo>)
    ensures
        opt_info(info) == proc_info_of(lines.deep_view()),
{
    if lines.len() < 2 {
        return None;
    }
    assert(lines.deep_view()[1] == lines[1]@);
    let mut parts = words_of(lines[1].as_str());
    if parts.len() < 2 {
        return None;
    }
    let ghost all = parts.deep_view();
    let parent_pid = parse_u32(parts[0].as_str());
    assert(parts[0]@ == all[0]);
    let command = parts.swap_remove(1);
    assert(command@ == all[1]);
    Some(ProcInfo { parent_pid, command })
}

/// The shell that the command of a process stands for, if it is one.
pub fn shell_of_command(command: &str) -> (shell: Option<AnyShell>)
    ensures
        shell == shell_of_binary(binary_name(command@)),
{
    let stripped = strip_leading(command, '-');
    let mut pieces = split_text(stripped.as_str(), '/');
    proof {
        lemma_split_nonempty(stripped@, '/');
    }
    let ghost all = pieces.deep_view();
    let binary = pieces.pop().unwrap();
    assert(binary@ == all.last());
    if same_text(binary.as_str(), "sh") || same_text(binary.as_str(), "bash") {
        Some(AnyShell::Bash(Bash))
    } else if same_text(binary.as_str(), "zsh") {
        Some(AnyShell::Zsh(Zsh))
    } else if same_text(binary.as_str(), "pwsh") {
        Some(AnyShell::PowerShell(PowerShell))
    } else {
        None
    }
}

/// The first step of the search for the shell that started the process `pid`.
pub fn detect_shell(pid: u32) -> (step: DetectStep)
    ensures
        step == detect_start(pid),
{
    DetectStep::Inspect { pid, visited: 0 }
}

/// The step after `info` came in for the process that was asked about
/// when `visited` processes had been asked about before.
pub fn detect_shell_next(visited: u8, info: Option<ProcInfo>) -> (step: DetectStep)
    ensures
        step == detect_next(visited, opt_info(info)),
{
    match info {
        Some(proc_info) => match shell_of_command(proc_info.command.as_str()) {
            Some(shell) => DetectStep::Found(shell),
            None => match proc_info.parent_pid {
                Some(parent) => {
                    if visited < MAX_VISITED - 1 {
                        DetectStep::Inspect { pid: parent, visited: visited + 1 }
                    } else {
                        DetectStep::NotFound
                    }
                },
                None => DetectStep::NotFound,
            },
        },
        None => DetectStep::NotFound,
    }
}

} // verus!
