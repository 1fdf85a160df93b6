use easytodo::errors::AppError;
use easytodo::launch::{editor_exit_error, editor_start_error, parent_pid, tab_commands, terminal_command};

#[test]
fn parent_pid_from_the_status_file() {
    let status = "Name:\tbash\nUmask:\t0022\nState:\tS (sleeping)\nTgid:\t4321\nPid:\t4321\nPPid:\t1234\nTracerPid:\t0\n";
    assert_eq!(parent_pid(status), Some(1234));
}

#[test]
fn parent_pid_takes_the_first_ppid_line() {
    assert_eq!(parent_pid("PPid:  7\nPPid: 8\n"), Some(7));
    assert_eq!(parent_pid("Pid: 3\r\nPPid:\t+42\r\n"), Some(42));
    assert_eq!(parent_pid("PPid:\t18446744073709551615"), Some(u64::MAX));
}

#[test]
fn parent_pid_missing_or_unreadable() {
    assert_eq!(parent_pid(""), None);
    assert_eq!(parent_pid("Name:\tbash\n"), None);
    assert_eq!(parent_pid("PPid:\n"), None);
    assert_eq!(parent_pid("PPid:\tabc\n"), None);
    assert_eq!(parent_pid("PPid:\t18446744073709551616\n"), None);
    assert_eq!(parent_pid("PPid:\t-1\n"), None);
    assert_eq!(parent_pid(" PPid:\t5\n"), None);
}

#[test]
fn terminals_that_open_tabs() {
    let (cmd, args) = terminal_command("kitty").unwrap();
    assert_eq!(cmd, "kitty");
    assert_eq!(args, vec!["@", "launch", "--type", "tab"]);
    let (cmd, args) = terminal_command("gnome-terminal-server").unwrap();
    assert_eq!(cmd, "gnome-terminal");
    assert_eq!(args, vec!["--tab", "--"]);
    let (cmd, args) = terminal_command("konsole").unwrap();
    assert_eq!(cmd, "konsole");
    assert_eq!(args, vec!["--new-tab", "-e"]);
    assert_eq!(terminal_command("foot").unwrap().1, vec!["-e"]);
    assert_eq!(terminal_command("wezterm").unwrap().1, vec!["cli", "spawn"]);
    assert_eq!(terminal_command("xterm"), None);
    assert_eq!(terminal_command("Kitty"), None);
}

fn strings(ws: &[&str]) -> Vec<String> {
    ws.iter().map(|w| w.to_string()).collect()
}

#[test]
fn tabs_are_tried_in_tmux_then_in_the_terminal() {
    let kitty = terminal_command("kitty");
    let cmds = tab_commands("nvim", "/t/a.md", true, kitty);
    assert_eq!(cmds.len(), 2);
    assert_eq!(cmds[0], ("tmux".to_string(), strings(&["new-window", "nvim", "/t/a.md"])));
    assert_eq!(cmds[1], ("kitty".to_string(), strings(&["@", "launch", "--type", "tab", "nvim", "/t/a.md"])));
    let cmds = tab_commands("vim", "x", false, terminal_command("foot"));
    assert_eq!(cmds, vec![("foot".to_string(), strings(&["-e", "vim", "x"]))]);
    assert!(tab_commands("vim", "x", false, None).is_empty());
}

#[test]
fn editor_errors_say_what_happened() {
    match editor_start_error("nvim", "No such file or directory (os error 2)") {
        AppError::Editor(m) => assert_eq!(m, "Failed to run editor 'nvim': No such file or directory (os error 2)"),
        other => panic!("unexpected {:?}", other),
    }
    match editor_exit_error("nvim", "exit status: 1") {
        AppError::Editor(m) => assert_eq!(m, "Editor 'nvim' exited with status: exit status: 1"),
        other => panic!("unexpected {:?}", other),
    }
}
