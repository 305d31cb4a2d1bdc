use jvc::commands::env::Env;
use jvc::config::JvcConfig;
use jvc::error::JvcError;
use jvc::shell::bash::Bash;
use jvc::shell::detect::unix::{
    detect_shell, detect_shell_next, get_proc_info, shell_of_command, DetectStep, ProcInfo,
};
use jvc::shell::detect::windows::{
    detect_shell as detect_in_table, get_proc_tree, shell_of_executable, ProcInfo as TableRow,
};
use jvc::shell::powershell::PowerShell;
use jvc::shell::shell::{available_shells, shell_of_name, AnyShell, Shell};
use jvc::shell::windows_cmd::WindowsCMD;
use jvc::shell::zsh::Zsh;
use jvc::text::{strip_leading, words_of};
use std::collections::HashMap;

#[test]
fn available_shells_should_be_parsable_from_string() {
    for windows in [false, true] {
        for shell_name in available_shells(windows) {
            let shell = shell_name.parse::<AnyShell>();
            assert!(shell.is_ok())
        }
    }
}

#[test]
fn shells_are_known_by_name() {
    assert_eq!(available_shells(false), vec!["bash", "zsh", "powershell"]);
    assert_eq!(available_shells(true), vec!["cmd", "powershell", "bash", "zsh"]);
    assert_eq!(shell_of_name("bash"), Some(AnyShell::Bash(Bash)));
    assert_eq!(shell_of_name("zsh"), Some(AnyShell::Zsh(Zsh)));
    assert_eq!(shell_of_name("powershell"), Some(AnyShell::PowerShell(PowerShell)));
    assert_eq!(shell_of_name("cmd"), Some(AnyShell::WindowsCMD(WindowsCMD)));
    assert_eq!(shell_of_name("fish"), None);
    assert_eq!(shell_of_name("Bash"), None);
    assert_eq!(
        "fish".parse::<AnyShell>(),
        Err(format!("Cannot identify shell type: {:?}", "fish"))
    );
}

#[test]
fn bourne_shells_quote_their_values() {
    for shell in [AnyShell::Bash(Bash), AnyShell::Zsh(Zsh)] {
        assert!(!shell.uses_search_path());
        assert_eq!(
            shell.export_path("/tmp/jvc_shell_1_2/installation/bin", ""),
            format!("export PATH={:?}:$PATH", "/tmp/jvc_shell_1_2/installation/bin")
        );
        assert_eq!(
            shell.export_path("/tmp/jvc_shell_1_2/installation/bin", "ignored"),
            "export PATH=\"/tmp/jvc_shell_1_2/installation/bin\":$PATH"
        );
        assert_eq!(shell.set_env_var("JVC_DIR", "/home/alice/.jvc"), "export JVC_DIR=\"/home/alice/.jvc\"");
        assert_eq!(
            shell.set_env_var("JVC_DIR", "a \"b\" \\ c\n"),
            format!("export JVC_DIR={:?}", "a \"b\" \\ c\n")
        );
        assert_eq!(shell.set_env_var("X", "a\"b"), "export X=\"a\\\"b\"");
    }
}

#[test]
fn powershell_and_cmd_set_the_whole_search_path() {
    let powershell = AnyShell::PowerShell(PowerShell);
    assert!(powershell.uses_search_path());
    assert_eq!(powershell.set_env_var("JVC_DIR", "C:\\jvc"), "$env:JVC_DIR = \"C:\\jvc\"");
    assert_eq!(
        powershell.export_path("C:\\jvc\\bin", "C:\\jvc\\bin;C:\\Windows"),
        "$env:PATH = \"C:\\jvc\\bin;C:\\Windows\""
    );
    let cmd = AnyShell::WindowsCMD(WindowsCMD);
    assert!(cmd.uses_search_path());
    assert_eq!(cmd.set_env_var("JVC_DIR", "C:\\jvc"), "SET JVC_DIR=C:\\jvc");
    assert_eq!(
        cmd.export_path("C:\\jvc\\bin", "C:\\jvc\\bin;C:\\Windows"),
        "SET PATH=C:\\jvc\\bin;C:\\Windows"
    );
    assert_eq!(WindowsCMD.set_var("A", "b"), "SET A=b");
}

#[test]
fn words_are_split_as_the_standard_splitter_does() {
    let samples = [
        "", " ", "a", " a", "a ", "  a  b  ", "1234 bash", "    1 /sbin/init", "a\tb\nc",
        "a\u{a0}b", "a\u{3000}b\u{2003}c", "a\u{200b}b", "\u{85}x\u{1680}y\u{2028}z\u{2029}",
        "x\u{202f}y\u{205f}z", "\r\n", "é ü",
    ];
    for s in samples {
        let expected: Vec<String> = s.split_whitespace().map(|w| w.to_owned()).collect();
        assert_eq!(words_of(s), expected, "for {:?}", s);
    }
    assert_eq!(words_of(" 4242 -bash "), vec!["4242", "-bash"]);
}

#[test]
fn leading_dashes_are_stripped() {
    for s in ["", "-", "--", "-bash", "--bash-x", "bash-", "a-b"] {
        assert_eq!(strip_leading(s, '-'), s.trim_start_matches('-'), "for {:?}", s);
    }
}

#[test]
fn ps_output_is_read() {
    let lines = vec!["  PPID COMMAND".to_owned(), " 4242 -bash".to_owned()];
    let info = get_proc_info(&lines).unwrap();
    assert_eq!(info.parent_pid, Some(4242));
    assert_eq!(info.command, "-bash");
    let lines = vec!["PPID COMMAND".to_owned(), "x /usr/bin/zsh extra".to_owned()];
    let info = get_proc_info(&lines).unwrap();
    assert_eq!(info.parent_pid, None);
    assert_eq!(info.command, "/usr/bin/zsh");
    assert!(get_proc_info(&vec![]).is_none());
    assert!(get_proc_info(&vec!["PPID COMMAND".to_owned()]).is_none());
    assert!(get_proc_info(&vec!["PPID COMMAND".to_owned(), "4242".to_owned()]).is_none());
    assert!(get_proc_info(&vec!["PPID COMMAND".to_owned(), "   ".to_owned()]).is_none());
}

#[test]
fn commands_tell_their_shell() {
    assert_eq!(shell_of_command("bash"), Some(AnyShell::Bash(Bash)));
    assert_eq!(shell_of_command("-bash"), Some(AnyShell::Bash(Bash)));
    assert_eq!(shell_of_command("/bin/sh"), Some(AnyShell::Bash(Bash)));
    assert_eq!(shell_of_command("/usr/bin/zsh"), Some(AnyShell::Zsh(Zsh)));
    assert_eq!(shell_of_command("--zsh"), Some(AnyShell::Zsh(Zsh)));
    assert_eq!(shell_of_command("/usr/local/bin/pwsh"), Some(AnyShell::PowerShell(PowerShell)));
    assert_eq!(shell_of_command("cargo"), None);
    assert_eq!(shell_of_command("/bin/bash/"), None);
    assert_eq!(shell_of_command(""), None);
    assert_eq!(shell_of_command("fish"), None);
}

#[test]
fn search_walks_up_to_ten_processes() {
    assert_eq!(detect_shell(77), DetectStep::Inspect { pid: 77, visited: 0 });
    let cargo = || Some(ProcInfo { parent_pid: Some(5), command: "cargo".to_owned() });
    assert_eq!(detect_shell_next(0, cargo()), DetectStep::Inspect { pid: 5, visited: 1 });
    assert_eq!(detect_shell_next(8, cargo()), DetectStep::Inspect { pid: 5, visited: 9 });
    assert_eq!(detect_shell_next(9, cargo()), DetectStep::NotFound);
    assert_eq!(detect_shell_next(255, cargo()), DetectStep::NotFound);
    assert_eq!(detect_shell_next(0, None), DetectStep::NotFound);
    let orphan = Some(ProcInfo { parent_pid: None, command: "cargo".to_owned() });
    assert_eq!(detect_shell_next(0, orphan), DetectStep::NotFound);
    let zsh = Some(ProcInfo { parent_pid: Some(1), command: "-zsh".to_owned() });
    assert_eq!(detect_shell_next(9, zsh), DetectStep::Found(AnyShell::Zsh(Zsh)));
}

fn table() -> HashMap<u32, TableRow> {
    let rows = vec![
        (10, 4, Some("jvc.exe")),
        (4, 3, Some("cargo.exe")),
        (3, 2, Some("pwsh.exe")),
        (2, 1, Some("cmd.exe")),
        (1, 1, None),
        (50, 49, Some("bash.exe")),
        (60, 61, Some("a.exe")),
        (61, 60, Some("b.exe")),
    ];
    rows.into_iter()
        .map(|(pid, p_pid, name)| {
            (pid, TableRow { exec_name: name.map(|n: &str| n.to_owned()), p_pid, pid })
        })
        .collect()
}

#[test]
fn process_tree_is_walked_to_its_root() {
    let tree = get_proc_tree(table(), 10);
    let pids: Vec<u32> = tree.iter().map(|p| p.pid).collect();
    assert_eq!(pids, vec![10, 4, 3, 2, 1]);
    let tree = get_proc_tree(table(), 60);
    let pids: Vec<u32> = tree.iter().map(|p| p.pid).collect();
    assert_eq!(pids, vec![60, 61]);
    assert!(get_proc_tree(table(), 99).is_empty());
    let tree = get_proc_tree(table(), 50);
    assert_eq!(tree.len(), 1);
}

#[test]
fn nearest_shell_in_the_table_is_found() {
    assert_eq!(detect_in_table(table(), 10), Some(AnyShell::PowerShell(PowerShell)));
    assert_eq!(detect_in_table(table(), 2), Some(AnyShell::WindowsCMD(WindowsCMD)));
    assert_eq!(detect_in_table(table(), 50), Some(AnyShell::Bash(Bash)));
    assert_eq!(detect_in_table(table(), 60), None);
    assert_eq!(detect_in_table(table(), 1), None);
    assert_eq!(detect_in_table(table(), 99), None);
    assert_eq!(shell_of_executable("powershell.exe"), Some(AnyShell::PowerShell(PowerShell)));
    assert_eq!(shell_of_executable("cmd"), None);
}

#[test]
fn session_lines_are_written_for_the_shell() {
    let config = JvcConfig::default();
    let lines = Env::lines(
        &AnyShell::Bash(Bash),
        "/tmp/jvc_shell_1_2",
        "",
        "/home/alice/.jvc",
        &config,
    );
    assert_eq!(
        lines,
        vec![
            "export PATH=\"/tmp/jvc_shell_1_2/installation/bin\":$PATH",
            "export JVC_SHELL_PATH=\"/tmp/jvc_shell_1_2\"",
            "export JVC_DIR=\"/home/alice/.jvc\"",
            "export JVC_LOGLEVEL=\"info\"",
            "export JVC_PROVIDER=\"adoptopenjdk\"",
        ]
    );
    let lines = Env::lines(
        &AnyShell::WindowsCMD(WindowsCMD),
        "C:/tmp/jvc_shell_1_2",
        "C:/tmp/jvc_shell_1_2/installation/bin;C:/Windows",
        "C:/jvc",
        &config,
    );
    assert_eq!(
        lines,
        vec![
            "SET PATH=C:/tmp/jvc_shell_1_2/installation/bin;C:/Windows",
            "SET JVC_SHELL_PATH=C:/tmp/jvc_shell_1_2",
            "SET JVC_DIR=C:/jvc",
            "SET JVC_LOGLEVEL=info",
            "SET JVC_PROVIDER=adoptopenjdk",
        ]
    );
    let named = Env { shell: Some(AnyShell::Zsh(Zsh)) };
    assert_eq!(named.shell_or(Some(AnyShell::Bash(Bash))), Ok(AnyShell::Zsh(Zsh)));
    assert_eq!(named.shell_or(None), Ok(AnyShell::Zsh(Zsh)));
    let unnamed = Env { shell: None };
    assert_eq!(unnamed.shell_or(Some(AnyShell::Bash(Bash))), Ok(AnyShell::Bash(Bash)));
    assert_eq!(unnamed.shell_or(None), Err(JvcError::ShellNotDetected));
}
