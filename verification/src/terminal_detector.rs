//! Best-effort detection of the terminal or editor that launched the agent
//! process, from a snapshot of the relevant environment variables and from
//! the parent process's command name, plus the mapping from a detected
//! canonical name to the application name the desktop scripting bridge
//! expects.

use vstd::prelude::*;
use vstd::string::{StrSliceExecFns, StringExecFns};

use crate::strutil::{
    clone_opt_string, contains_substr, lower_of, lowercase, parse_u32_str, spec_contains,
    spec_parse_u32, spec_trim, str_eq, trim_str,
};

verus! {

/// The context detected for one invocation. Every field is best-effort and
/// independently optional: absence of one never blocks the others.
pub struct TerminalInfo {
    pub terminal_app: Option<String>,
    pub window_id: Option<String>,
    pub session_id: Option<String>,
    pub project_dir: Option<String>,
    pub parent_pid: Option<u32>,
    pub agent_pid: Option<u32>,
    pub cwd: Option<String>,
}

/// The environment variables that the detection heuristics read, as found
/// at the moment of the snapshot; an unset variable is `None`.
pub struct EnvSnapshot {
    pub git_askpass: Option<String>,
    pub cursor_trace_id: Option<String>,
    pub term_program: Option<String>,
    pub vscode_injection: Option<String>,
    pub vscode_pid: Option<String>,
    pub terminal_emulator: Option<String>,
    pub alacritty_socket: Option<String>,
    pub wezterm_pane: Option<String>,
    pub kitty_window_id: Option<String>,
    pub agent_project_dir: Option<String>,
}

/// The mathematical value of a detected context: each text field as its
/// character sequence.
pub ghost struct TerminalInfoV {
    pub terminal_app: Option<Seq<char>>,
    pub window_id: Option<Seq<char>>,
    pub session_id: Option<Seq<char>>,
    pub project_dir: Option<Seq<char>>,
    pub parent_pid: Option<u32>,
    pub agent_pid: Option<u32>,
    pub cwd: Option<Seq<char>>,
}

impl View for TerminalInfo {
    type V = TerminalInfoV;

    open spec fn view(&self) -> TerminalInfoV {
        TerminalInfoV {
            terminal_app: self.terminal_app.deep_view(),
            window_id: self.window_id.deep_view(),
            session_id: self.session_id.deep_view(),
            project_dir: self.project_dir.deep_view(),
            parent_pid: self.parent_pid,
            agent_pid: self.agent_pid,
            cwd: self.cwd.deep_view(),
        }
    }
}

impl Clone for TerminalInfo {
    /// An exact duplicate, field for field.
    fn clone(&self) -> (r: Self)
        ensures
            r == *self,
    {
        TerminalInfo {
            terminal_app: clone_opt_string(&self.terminal_app),
            window_id: clone_opt_string(&self.window_id),
            session_id: clone_opt_string(&self.session_id),
            project_dir: clone_opt_string(&self.project_dir),
            parent_pid: self.parent_pid,
            agent_pid: self.agent_pid,
            cwd: clone_opt_string(&self.cwd),
        }
    }
}

/// The fixed translation table for the generic terminal-program variable:
/// known values map to canonical names, unknown values pass through.
pub open spec fn spec_translate_term_program(tp: Seq<char>) -> Seq<char> {
    if tp == "iTerm.app"@ {
        "iTerm2"@
    } else if tp == "Apple_Terminal"@ {
        "Terminal"@
    } else if tp == "vscode"@ {
        "VSCode"@
    } else if tp == "WarpTerminal"@ {
        "Warp"@
    } else if tp == "tmux"@ {
        "tmux"@
    } else {
        tp
    }
}

/// Detection from the environment alone, in strict priority order; the
/// first rule that fires decides, and no later rule is consulted.
pub open spec fn spec_detect_env(env: EnvSnapshot) -> Option<Seq<char>> {
    if env.git_askpass matches Some(g) && spec_contains(g@, "Cursor.app"@) {
        Some("Cursor"@)
    } else if env.cursor_trace_id is Some {
        Some("Cursor"@)
    } else {
        match env.term_program {
            Some(tp) => Some(spec_translate_term_program(tp@)),
            None => if env.vscode_injection is Some || env.vscode_pid is Some {
                Some("VSCode"@)
            } else {
                match env.terminal_emulator {
                    Some(t) => Some(t@),
                    None => if env.alacritty_socket is Some {
                        Some("Alacritty"@)
                    } else if env.wezterm_pane is Some {
                        Some("WezTerm"@)
                    } else if env.kitty_window_id is Some {
                        Some("Kitty"@)
                    } else {
                        None
                    },
                }
            },
        }
    }
}

/// Inspect the environment snapshot for the terminal that launched us.
pub fn detect_terminal_from_env(env: &EnvSnapshot) -> (r: Option<String>)
    ensures
        r.deep_view() == spec_detect_env(*env),
{
    if let Some(g) = &env.git_askpass {
        if contains_substr(g.as_str(), "Cursor.app") {
            return Some(String::from_str("Cursor"));
        }
    }
    if env.cursor_trace_id.is_some() {
        return Some(String::from_str("Cursor"));
    }
    if let Some(tp) = &env.term_program {
        let name: String = if str_eq(tp.as_str(), "iTerm.app") {
            String::from_str("iTerm2")
        } else if str_eq(tp.as_str(), "Apple_Terminal") {
            String::from_str("Terminal")
        } else if str_eq(tp.as_str(), "vscode") {
            String::from_str("VSCode")
        } else if str_eq(tp.as_str(), "WarpTerminal") {
            String::from_str("Warp")
        } else if str_eq(tp.as_str(), "tmux") {
            String::from_str("tmux")
        } else {
            tp.clone()
        };
        return Some(name);
    }
    if env.vscode_injection.is_some() || env.vscode_pid.is_some() {
        return Some(String::from_str("VSCode"));
    }
    if let Some(t) = &env.terminal_emulator {
        return Some(t.clone());
    }
    if env.alacritty_socket.is_some() {
        return Some(String::from_str("Alacritty"));
    }
    if env.wezterm_pane.is_some() {
        return Some(String::from_str("WezTerm"));
    }
    if env.kitty_window_id.is_some() {
        return Some(String::from_str("Kitty"));
    }
    None
}

/// The fixed substring table over an already-lowercased process name; the
/// first matching substring decides.
pub open spec fn spec_classify(lower: Seq<char>) -> Option<Seq<char>> {
    if spec_contains(lower, "cursor"@) {
        Some("Cursor"@)
    } else if spec_contains(lower, "terminal"@) {
        Some("Terminal"@)
    } else if spec_contains(lower, "iterm"@) {
        Some("iTerm2"@)
    } else if spec_contains(lower, "code"@) {
        Some("VSCode"@)
    } else if spec_contains(lower, "warp"@) {
        Some("Warp"@)
    } else if spec_contains(lower, "alacritty"@) {
        Some("Alacritty"@)
    } else if spec_contains(lower, "wezterm"@) {
        Some("WezTerm"@)
    } else if spec_contains(lower, "kitty"@) {
        Some("Kitty"@)
    } else if spec_contains(lower, "hyper"@) {
        Some("Hyper"@)
    } else {
        None
    }
}

/// Match a lowercased process name against the fixed substring table.
pub fn classify_process_name(lower: &str) -> (r: Option<String>)
    ensures
        r.deep_view() == spec_classify(lower@),
{
    if contains_substr(lower, "cursor") {
        Some(String::from_str("Cursor"))
    } else if contains_substr(lower, "terminal") {
        Some(String::from_str("Terminal"))
    } else if contains_substr(lower, "iterm") {
        Some(String::from_str("iTerm2"))
    } else if contains_substr(lower, "code") {
        Some(String::from_str("VSCode"))
    } else if contains_substr(lower, "warp") {
        Some(String::from_str("Warp"))
    } else if contains_substr(lower, "alacritty") {
        Some(String::from_str("Alacritty"))
    } else if contains_substr(lower, "wezterm") {
        Some(String::from_str("WezTerm"))
    } else if contains_substr(lower, "kitty") {
        Some(String::from_str("Kitty"))
    } else if contains_substr(lower, "hyper") {
        Some(String::from_str("Hyper"))
    } else {
        None
    }
}

/// Classify a process name as reported by the process table: lowercase it,
/// then apply the fixed substring table.
pub fn detect_terminal_from_process(process_name: &str) -> (r: Option<String>)
    ensures
        r.deep_view() == spec_classify(lower_of(process_name@)),
{
    let lower = lowercase(process_name);
    classify_process_name(lower.as_str())
}

/// Parse a process id as printed by the process table: surrounding
/// whitespace is ignored, anything else must be a decimal number.
pub fn parse_pid(s: &str) -> (r: Option<u32>)
    ensures
        r == spec_parse_u32(spec_trim(s@)),
{
    parse_u32_str(trim_str(s))
}

/// The terminal name that detection settles on: the environment rules in
/// their priority order first, and only if none of them fired, the parent
/// process's command name (when the process table yielded one).
pub open spec fn spec_detect_terminal(env: EnvSnapshot, parent_comm: Option<Seq<char>>) -> Option<
    Seq<char>,
> {
    if spec_detect_env(env) is Some {
        spec_detect_env(env)
    } else {
        match parent_comm {
            Some(c) => spec_classify(lower_of(c)),
            None => None,
        }
    }
}

impl TerminalInfo {
    /// Assemble the detected context from the gathered raw facts: the
    /// environment snapshot, the parent process id and command name from
    /// the process table, the working directory, and the window identifier
    /// where the platform offers one. Total: absent inputs leave fields
    /// empty, never fail.
    pub fn detect(
        env: EnvSnapshot,
        parent_pid: Option<u32>,
        parent_comm: Option<String>,
        cwd: Option<String>,
        window_id: Option<String>,
    ) -> (r: TerminalInfo)
        ensures
            r.terminal_app.deep_view() == spec_detect_terminal(env, parent_comm.deep_view()),
            r.window_id == window_id,
            r.session_id is None,
            r.project_dir == env.agent_project_dir,
            r.parent_pid == parent_pid,
            r.agent_pid is None,
            r.cwd == cwd,
    {
        let terminal_app: Option<String> = match detect_terminal_from_env(&env) {
            Some(t) => Some(t),
            None => match &parent_comm {
                Some(c) => detect_terminal_from_process(c.as_str()),
                None => None,
            },
        };
        TerminalInfo {
            terminal_app,
            window_id,
            session_id: None,
            project_dir: env.agent_project_dir,
            parent_pid,
            agent_pid: None,
            cwd,
        }
    }
}

/// Detection is deterministic in its inputs, and the credential-helper rule
/// outranks every other heuristic: a credential helper pointing into the
/// known editor's bundle decides the name, whatever else is set and
/// whatever the parent process is called.
pub proof fn lemma_credential_helper_wins(env: EnvSnapshot, parent_comm: Option<Seq<char>>)
    requires
        env.git_askpass matches Some(g) && spec_contains(g@, "Cursor.app"@),
    ensures
        spec_detect_terminal(env, parent_comm) == Some("Cursor"@),
{
}

/// The environment rules outrank the process-table rule: whenever any
/// environment rule fires, the parent process's name is never consulted.
pub proof fn lemma_env_rules_win(env: EnvSnapshot, parent_comm: Option<Seq<char>>)
    requires
        spec_detect_env(env) is Some,
    ensures
        spec_detect_terminal(env, parent_comm) == spec_detect_env(env),
{
}

/// The application name the scripting bridge expects for a canonical
/// terminal name: a fixed table, with unknown names passing through.
pub open spec fn spec_real_app_name(app: Seq<char>) -> Seq<char> {
    if app == "VSCode"@ {
        "Visual Studio Code"@
    } else if app == "iTerm2"@ {
        "iTerm"@
    } else if app == "Kitty"@ {
        "kitty"@
    } else {
        app
    }
}

/// Plan the activation of the terminal recorded for a session: the name to
/// hand the scripting bridge on success, or the fixed diagnostic when no
/// terminal was ever detected for the record.
pub fn activate_terminal(info: &TerminalInfo) -> (r: Result<String, String>)
    ensures
        match r {
            Ok(name) => info.terminal_app matches Some(app) && name@ == spec_real_app_name(app@),
            Err(e) => info.terminal_app is None && e@ == "No terminal app detected"@,
        },
{
    match &info.terminal_app {
        Some(app) => {
            let actual: String = if str_eq(app.as_str(), "VSCode") {
                String::from_str("Visual Studio Code")
            } else if str_eq(app.as_str(), "iTerm2") {
                String::from_str("iTerm")
            } else if str_eq(app.as_str(), "Kitty") {
                String::from_str("kitty")
            } else {
                app.clone()
            };
            Ok(actual)
        },
        None => Err(String::from_str("No terminal app detected")),
    }
}

} // verus!
