//! Tests of terminal detection: priority order over the environment, the
//! process-name table, pid parsing, and the activation name table.

use agent_notifier::terminal_detector::{
    activate_terminal, classify_process_name, detect_terminal_from_env,
    detect_terminal_from_process, parse_pid, EnvSnapshot, TerminalInfo,
};

fn empty_env() -> EnvSnapshot {
    EnvSnapshot {
        git_askpass: None,
        cursor_trace_id: None,
        term_program: None,
        vscode_injection: None,
        vscode_pid: None,
        terminal_emulator: None,
        alacritty_socket: None,
        wezterm_pane: None,
        kitty_window_id: None,
        agent_project_dir: None,
    }
}

#[test]
fn test_credential_helper_beats_term_program() {
    let mut env = empty_env();
    env.git_askpass = Some("/Applications/Cursor.app/helper".to_string());
    env.term_program = Some("iTerm.app".to_string());
    assert_eq!(detect_terminal_from_env(&env).as_deref(), Some("Cursor"));
}

#[test]
fn test_trace_id_beats_term_program() {
    let mut env = empty_env();
    env.cursor_trace_id = Some("trace".to_string());
    env.term_program = Some("Apple_Terminal".to_string());
    assert_eq!(detect_terminal_from_env(&env).as_deref(), Some("Cursor"));
}

#[test]
fn test_term_program_translation_table() {
    for (raw, canonical) in [
        ("iTerm.app", "iTerm2"),
        ("Apple_Terminal", "Terminal"),
        ("vscode", "VSCode"),
        ("WarpTerminal", "Warp"),
        ("tmux", "tmux"),
        ("Ghostty", "Ghostty"),
    ] {
        let mut env = empty_env();
        env.term_program = Some(raw.to_string());
        assert_eq!(detect_terminal_from_env(&env).as_deref(), Some(canonical));
    }
}

#[test]
fn test_vscode_markers() {
    let mut env = empty_env();
    env.vscode_pid = Some("123".to_string());
    assert_eq!(detect_terminal_from_env(&env).as_deref(), Some("VSCode"));
}

#[test]
fn test_terminal_emulator_passes_verbatim() {
    let mut env = empty_env();
    env.terminal_emulator = Some("JetBrains-JediTerm".to_string());
    env.alacritty_socket = Some("/sock".to_string());
    assert_eq!(detect_terminal_from_env(&env).as_deref(), Some("JetBrains-JediTerm"));
}

#[test]
fn test_emulator_markers() {
    let mut env = empty_env();
    env.alacritty_socket = Some("/sock".to_string());
    assert_eq!(detect_terminal_from_env(&env).as_deref(), Some("Alacritty"));

    let mut env = empty_env();
    env.wezterm_pane = Some("0".to_string());
    assert_eq!(detect_terminal_from_env(&env).as_deref(), Some("WezTerm"));

    let mut env = empty_env();
    env.kitty_window_id = Some("1".to_string());
    assert_eq!(detect_terminal_from_env(&env).as_deref(), Some("Kitty"));

    assert_eq!(detect_terminal_from_env(&empty_env()), None);
}

#[test]
fn test_detect_is_deterministic_and_ordered() {
    let mut env = empty_env();
    env.git_askpass = Some("x/Cursor.app/y".to_string());
    env.term_program = Some("WarpTerminal".to_string());
    env.agent_project_dir = Some("/proj".to_string());

    let first = TerminalInfo::detect(
        env,
        Some(10),
        Some("iTerm2".to_string()),
        Some("/cwd".to_string()),
        None,
    );
    assert_eq!(first.terminal_app.as_deref(), Some("Cursor"));
    assert_eq!(first.project_dir.as_deref(), Some("/proj"));
    assert_eq!(first.parent_pid, Some(10));
    assert_eq!(first.agent_pid, None);
    assert_eq!(first.session_id, None);
    assert_eq!(first.window_id, None);
    assert_eq!(first.cwd.as_deref(), Some("/cwd"));
}

#[test]
fn test_detect_falls_back_to_parent_process() {
    let info = TerminalInfo::detect(
        empty_env(),
        Some(77),
        Some("iTerm2-helper".to_string()),
        None,
        None,
    );
    assert_eq!(info.terminal_app.as_deref(), Some("iTerm2"));

    let none = TerminalInfo::detect(empty_env(), None, None, None, None);
    assert_eq!(none.terminal_app, None);
}

#[test]
fn test_classify_process_name_table() {
    assert_eq!(classify_process_name("cursor helper").as_deref(), Some("Cursor"));
    assert_eq!(classify_process_name("gnome-terminal-server").as_deref(), Some("Terminal"));
    assert_eq!(classify_process_name("iterm2").as_deref(), Some("iTerm2"));
    assert_eq!(classify_process_name("code").as_deref(), Some("VSCode"));
    assert_eq!(classify_process_name("warp-daemon").as_deref(), Some("Warp"));
    assert_eq!(classify_process_name("alacritty").as_deref(), Some("Alacritty"));
    assert_eq!(classify_process_name("wezterm-gui").as_deref(), Some("WezTerm"));
    assert_eq!(classify_process_name("kitty").as_deref(), Some("Kitty"));
    assert_eq!(classify_process_name("hyper").as_deref(), Some("Hyper"));
    assert_eq!(classify_process_name("bash"), None);
}

#[test]
fn test_detect_terminal_from_process_lowercases() {
    assert_eq!(detect_terminal_from_process("iTerm2").as_deref(), Some("iTerm2"));
    assert_eq!(detect_terminal_from_process("Cursor Helper (GPU)").as_deref(), Some("Cursor"));
    assert_eq!(detect_terminal_from_process("zsh"), None);
}

#[test]
fn test_parse_pid() {
    assert_eq!(parse_pid("  123\n"), Some(123));
    assert_eq!(parse_pid("123"), Some(123));
    assert_eq!(parse_pid("+42"), Some(42));
    assert_eq!(parse_pid("0"), Some(0));
    assert_eq!(parse_pid("4294967295"), Some(u32::MAX));
    assert_eq!(parse_pid("4294967296"), None);
    assert_eq!(parse_pid("99999999999"), None);
    assert_eq!(parse_pid(""), None);
    assert_eq!(parse_pid("  "), None);
    assert_eq!(parse_pid("12a"), None);
    assert_eq!(parse_pid("-1"), None);
}

#[test]
fn test_activate_terminal_maps_names() {
    let mut info = TerminalInfo {
        terminal_app: Some("VSCode".to_string()),
        window_id: None,
        session_id: None,
        project_dir: None,
        parent_pid: None,
        agent_pid: None,
        cwd: None,
    };
    assert_eq!(activate_terminal(&info), Ok("Visual Studio Code".to_string()));

    info.terminal_app = Some("iTerm2".to_string());
    assert_eq!(activate_terminal(&info), Ok("iTerm".to_string()));

    info.terminal_app = Some("Kitty".to_string());
    assert_eq!(activate_terminal(&info), Ok("kitty".to_string()));

    info.terminal_app = Some("Warp".to_string());
    assert_eq!(activate_terminal(&info), Ok("Warp".to_string()));

    info.terminal_app = None;
    assert_eq!(activate_terminal(&info), Err("No terminal app detected".to_string()));
}
