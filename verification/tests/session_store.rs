//! Tests of the session registry: round trips, replacement, the sweep,
//! sanitizing and paths.

use agent_notifier::session_store::{sanitize_session_id, SessionInfo, SessionStore};
use agent_notifier::terminal_detector::TerminalInfo;

fn terminal_info(app: Option<&str>) -> TerminalInfo {
    TerminalInfo {
        terminal_app: app.map(|s| s.to_string()),
        window_id: None,
        session_id: None,
        project_dir: Some("/proj".to_string()),
        parent_pid: Some(4242),
        agent_pid: None,
        cwd: Some("/work".to_string()),
    }
}

fn record(id: &str, created_at: u64) -> SessionInfo {
    SessionInfo {
        session_id: id.to_string(),
        terminal_info: terminal_info(Some("iTerm2")),
        created_at,
        cwd: Some("/work".to_string()),
        transcript_path: Some("/tmp/transcript.md".to_string()),
    }
}

#[test]
fn test_put_then_get_roundtrip() {
    let mut store = SessionStore::new("/tmp/sessions".to_string());
    store.insert_record(record("abc123", 77));

    let got = store.get_session("abc123").expect("record should be present");
    assert_eq!(got.session_id, "abc123");
    assert_eq!(got.created_at, 77);
    assert_eq!(got.cwd.as_deref(), Some("/work"));
    assert_eq!(got.transcript_path.as_deref(), Some("/tmp/transcript.md"));
    assert_eq!(got.terminal_info.terminal_app.as_deref(), Some("iTerm2"));
    assert_eq!(got.terminal_info.project_dir.as_deref(), Some("/proj"));
    assert_eq!(got.terminal_info.parent_pid, Some(4242));
    assert_eq!(got.terminal_info.agent_pid, None);
    assert_eq!(got.terminal_info.cwd.as_deref(), Some("/work"));
}

#[test]
fn test_second_put_fully_replaces() {
    let mut store = SessionStore::new("/tmp/sessions".to_string());
    store.insert_record(record("abc123", 77));

    let replacement = SessionInfo {
        session_id: "abc123".to_string(),
        terminal_info: terminal_info(None),
        created_at: 99,
        cwd: None,
        transcript_path: None,
    };
    store.insert_record(replacement);

    let got = store.get_session("abc123").expect("record should be present");
    assert_eq!(got.created_at, 99);
    assert_eq!(got.cwd, None);
    assert_eq!(got.transcript_path, None);
    assert_eq!(got.terminal_info.terminal_app, None);
    assert_eq!(store.list_sessions().len(), 1);
}

#[test]
fn test_get_missing_is_none() {
    let store = SessionStore::new("/tmp/sessions".to_string());
    assert!(store.get_session("nope").is_none());
}

#[test]
fn test_sweep_removes_exactly_the_old() {
    let now: u64 = 1_000_000;
    let cutoff = now - 86400;
    let mut store = SessionStore::new("/tmp/sessions".to_string());
    store.insert_record(record("old", cutoff - 1));
    store.insert_record(record("boundary", cutoff));
    store.insert_record(record("fresh", now));

    store.cleanup_old_sessions(now);

    assert!(store.get_session("old").is_none());
    assert!(store.get_session("boundary").is_some());
    assert!(store.get_session("fresh").is_some());
    assert_eq!(store.list_sessions().len(), 2);
}

#[test]
fn test_sweep_near_epoch_keeps_everything() {
    let mut store = SessionStore::new("/tmp/sessions".to_string());
    store.insert_record(record("early", 0));
    store.cleanup_old_sessions(100);
    assert!(store.get_session("early").is_some());
}

#[test]
fn test_store_session_stamps_and_stores() {
    let mut store = SessionStore::new("/tmp/sessions".to_string());
    store
        .store_session("sid-1", terminal_info(Some("Warp")), Some("/cwd".to_string()), None)
        .expect("storing should succeed");

    let got = store.get_session("sid-1").expect("record should be present");
    assert_eq!(got.session_id, "sid-1");
    assert_eq!(got.cwd.as_deref(), Some("/cwd"));
    assert_eq!(got.transcript_path, None);
    assert_eq!(got.terminal_info.terminal_app.as_deref(), Some("Warp"));
    assert!(got.created_at > 0);
}

#[test]
fn test_sanitize_session_id_replaces_specials() {
    assert_eq!(sanitize_session_id("abc-123_XYZ"), "abc-123_XYZ");
    assert_eq!(sanitize_session_id("a b/c!d"), "a_b_c_d");
    assert_eq!(sanitize_session_id(""), "");
    assert_eq!(sanitize_session_id("../etc"), "___etc");
    // Alphanumeric is the standard library's notion, not an ASCII one.
    assert_eq!(sanitize_session_id("h\u{e9}llo\u{2713}x"), "h\u{e9}llo_x");
}

#[test]
fn test_get_uses_sanitized_key() {
    let mut store = SessionStore::new("/tmp/sessions".to_string());
    store.insert_record(record("a b", 5));
    // "a b" and "a_b" name the same file, so either spelling finds it.
    assert!(store.get_session("a_b").is_some());
    assert!(store.get_session("a b").is_some());
}

#[test]
fn test_session_file_path() {
    let store = SessionStore::new("/tmp/sessions".to_string());
    assert_eq!(store.session_file_path("a b"), "/tmp/sessions/a_b.json");
}

#[test]
fn test_list_sessions_names_every_key_once() {
    let mut store = SessionStore::new("/tmp/sessions".to_string());
    store.insert_record(record("abc123", 1));
    store.insert_record(record("def456", 2));
    store.insert_record(record("abc123", 3));

    let mut ids = store.list_sessions();
    ids.sort();
    assert_eq!(ids, vec!["abc123".to_string(), "def456".to_string()]);
}
