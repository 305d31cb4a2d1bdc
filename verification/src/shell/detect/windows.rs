//! Detection from a table of all processes.

use vstd::prelude::*;
use std::collections::HashMap;
use crate::path::opt_text;
use crate::shell::bash::Bash;
use crate::shell::powershell::PowerShell;
use crate::shell::shell::AnyShell;
use crate::shell::windows_cmd::WindowsCMD;
use crate::text::same_text;

verus! {

/// One row of the table of processes.
#[derive(Debug)]
pub struct ProcInfo {
    /// The file name of the program that the process runs, where it is known.
    pub exec_name: Option<String>,
    /// The number of the process that started it.
    pub p_pid: u32,
    /// The number of the process.
    pub pid: u32,
}

/// What a `ProcInfo` holds, as plain values.
pub struct ProcInfoView {
    pub exec_name: Option<Seq<char>>,
    pub p_pid: u32,
    pub pid: u32,
}

impl View for ProcInfo {
    type V = ProcInfoView;

    open spec fn view(&self) -> ProcInfoView {
        ProcInfoView { exec_name: opt_text(self.exec_name), p_pid: self.p_pid, pid: self.pid }
    }
}

impl DeepView for ProcInfo {
    type V = ProcInfoView;

    open spec fn deep_view(&self) -> ProcInfoView {
        self@
    }
}

/// The table as plain values: each process by its number.
pub open spec fn table_view(table: Map<u32, ProcInfo>) -> Map<u32, ProcInfoView> {
    Map::new(|pid: u32| table.dom().contains(pid), |pid: u32| table[pid]@)
}

/// The process `pid` and its ancestors, as far as the table knows them,
/// nearest first. No process occurs twice.
pub open spec fn ancestors(table: Map<u32, ProcInfoView>, pid: u32) -> Seq<ProcInfoView>
    decreases table.dom().len(),
    when table.dom().finite()
{
    if table.dom().contains(pid) {
        seq![table[pid]] + ancestors(table.remove(pid), table[pid].p_pid)
    } else {
        Seq::<ProcInfoView>::empty()
    }
}

/// The shell that a program's file name stands for.
pub open spec fn shell_of_file(name: Seq<char>) -> Option<AnyShell> {
    if name == "cmd.exe"@ {
        Some(AnyShell::WindowsCMD(WindowsCMD))
    } else if name == "bash.exe"@ {
        Some(AnyShell::Bash(Bash))
    } else if name == "powershell.exe"@ || name == "pwsh.exe"@ {
        Some(AnyShell::PowerShell(PowerShell))
    } else {
        None
    }
}

/// The shell of the first of `processes` that runs one.
pub open spec fn first_shell(processes: Seq<ProcInfoView>) -> Option<AnyShell>
    decreases processes.len(),
{
    if processes.len() == 0 {
        None
    } else {
        match processes[0].exec_name {
            Some(name) => match shell_of_file(name) {
                Some(shell) => Some(shell),
                None => first_shell(processes.drop_first()),
            },
            None => first_shell(processes.drop_first()),
        }
    }
}

/// The process `pid` and its ancestors, as far as `proc_map` knows them, nearest first.
pub fn get_proc_tree(proc_map: HashMap<u32, ProcInfo>, pid: u32) -> (tree: Vec<ProcInfo>)
    ensures
        tree.deep_view() == ancestors(table_view(proc_map@), pid),
{
    broadcast use vstd::std_specs::hash::group_hash_axioms;

    let ghost whole = table_view(proc_map@);
    let mut table = proc_map;
    let mut vec: Vec<ProcInfo> = Vec::new();
    let mut next: u32 = pid;
    let mut more: bool = true;
    assert(vec.deep_view() =~= Seq::<ProcInfoView>::empty());
    assert(table_view(table@).dom() =~= table@.dom());
    while more
        invariant
            table@.dom().finite(),
            table_view(table@).dom() == table@.dom(),
            more ==> ancestors(whole, pid) == vec.deep_view() + ancestors(table_view(table@), next),
            !more ==> ancestors(whole, pid) == vec.deep_view(),
        decreases table@.dom().len() + (if more { 1int } else { 0int }),
    {
        let ghost before = table_view(table@);
        let ghost done = vec.deep_view();
        let ghost asked = next;
        match table.remove(&next) {
            Some(proc) => {
                proof {
                    assert(table_view(table@) =~= before.remove(asked));
                    assert(before[asked] == proc@);
                }
                next = proc.p_pid;
                vec.push(proc);
                proof {
                    let tail = ancestors(before.remove(asked), before[asked].p_pid);
                    assert(vec.deep_view() =~= done + seq![before[asked]]);
                    assert(ancestors(before, asked) == seq![before[asked]] + tail);
                    assert(done + (seq![before[asked]] + tail) =~= (done + seq![before[asked]])
                        + tail);
                }
            },
            None => {
                proof {
                    assert(table_view(table@) =~= before);
                    assert(ancestors(before, asked) =~= Seq::<ProcInfoView>::empty());
                    assert(done + Seq::<ProcInfoView>::empty() =~= done);
                }
                more = false;
            },
        }
    }
    vec
}

/// The shell that a program's file name stands for, if it is one.
pub fn shell_of_executable(name: &str) -> (shell: Option<AnyShell>)
    ensures
        shell == shell_of_file(name@),
{
    if same_text(name, "cmd.exe") {
        Some(AnyShell::WindowsCMD(WindowsCMD))
    } else if same_text(name, "bash.exe") {
        Some(AnyShell::Bash(Bash))
    } else if same_text(name, "powershell.exe") || same_text(name, "pwsh.exe") {
        Some(AnyShell::PowerShell(PowerShell))
    } else {
        None
    }
}

/// The shell that started the process `pid`: that of the nearest ancestor
/// in `proc_map` that runs a shell.
pub fn detect_shell(proc_map: HashMap<u32, ProcInfo>, pid: u32) -> (shell: Option<AnyShell>)
    ensures
        shell == first_shell(ancestors(table_view(proc_map@), pid)),
{
    let proc_tree = get_proc_tree(proc_map, pid);
    let ghost all = proc_tree.deep_view();
    let mut found: Option<AnyShell> = None;
    let mut i: usize = 0;
    assert(all.skip(0) =~= all);
    while i < proc_tree.len() && found.is_none()
        invariant
            i <= proc_tree.len(),
            all == proc_tree.deep_view(),
            found is None ==> first_shell(all) == first_shell(all.skip(i as int)),
            found is Some ==> first_shell(all) == found,
        decreases proc_tree.len() - i,
    {
        let ghost rest = all.skip(i as int);
        assert(rest[0] == proc_tree[i as int]@);
        assert(rest.drop_first() =~= all.skip(i + 1));
        if let Some(name) = &proc_tree[i].exec_name {
            found = shell_of_executable(name.as_str());
        }
        i += 1;
    }
    found
}

} // verus!
