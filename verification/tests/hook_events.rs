//! Tests of the mapping from lifecycle events to notification requests.

use agent_notifier::process_hook_event;
use agent_notifier::types::{Config, HookContent, HookParameters, HookPayload, Metadata, ToolInput};

fn payload(event: &str) -> HookPayload {
    HookPayload {
        event: event.to_string(),
        content: None,
        metadata: None,
        tool_name: None,
        tool_input: None,
        session_id: Some("test-session".to_string()),
        transcript_path: None,
        cwd: None,
    }
}

#[test]
fn test_notification_event() {
    let config = Config::default();
    let mut p = payload("Notification");
    p.metadata = Some(Metadata {
        tool_name: Some("Bash".to_string()),
        command: None,
        description: None,
        message: None,
    });

    let result = process_hook_event(&p, &config);
    assert_eq!(result.title, "Agent Needs Approval");
    assert_eq!(result.body, "Agent needs approval to use: Bash");
    assert_eq!(result.sound, "Glass");
}

#[test]
fn test_notification_with_message() {
    let config = Config::default();
    let mut p = payload("Notification");
    p.metadata = Some(Metadata {
        tool_name: None,
        command: None,
        description: None,
        message: Some("Custom approval message".to_string()),
    });

    let result = process_hook_event(&p, &config);
    assert_eq!(result.title, "Agent Needs Approval");
    assert_eq!(result.body, "Custom approval message");
    assert_eq!(result.sound, "Glass");
}

#[test]
fn test_pre_tool_use_bash() {
    let config = Config::default();
    let mut p = payload("PreToolUse");
    p.metadata = Some(Metadata {
        tool_name: Some("Bash".to_string()),
        command: Some("ls -la".to_string()),
        description: None,
        message: None,
    });

    let result = process_hook_event(&p, &config);
    assert_eq!(result.title, "Agent Tool Use");
    assert_eq!(result.body, "Running: ls -la");
    assert_eq!(result.sound, "Pop");
}

#[test]
fn test_pre_tool_use_other_tool() {
    let config = Config::default();
    let mut p = payload("PreToolUse");
    p.metadata = Some(Metadata {
        tool_name: Some("Read".to_string()),
        command: None,
        description: None,
        message: None,
    });

    let result = process_hook_event(&p, &config);
    assert_eq!(result.title, "Agent Tool Use");
    assert_eq!(result.body, "Using tool: Read");
    assert_eq!(result.sound, "Pop");
}

#[test]
fn test_pre_tool_use_from_content() {
    let config = Config::default();
    let mut p = payload("PreToolUse");
    p.content = Some(HookContent {
        tool_name: Some("Bash".to_string()),
        parameters: Some(HookParameters { command: Some("npm test".to_string()) }),
    });

    let result = process_hook_event(&p, &config);
    assert_eq!(result.title, "Agent Tool Use");
    assert_eq!(result.body, "Running: npm test");
    assert_eq!(result.sound, "Pop");
}

#[test]
fn test_stop_event() {
    let config = Config::default();
    let mut p = payload("Stop");
    p.metadata = Some(Metadata {
        tool_name: None,
        command: None,
        description: Some("All tests passed successfully".to_string()),
        message: None,
    });

    let result = process_hook_event(&p, &config);
    assert_eq!(result.title, "Agent Finished");
    assert_eq!(result.body, "All tests passed successfully");
    assert_eq!(result.sound, "Hero");
}

#[test]
fn test_stop_with_message() {
    let config = Config::default();
    let mut p = payload("Stop");
    p.metadata = Some(Metadata {
        tool_name: None,
        command: None,
        description: None,
        message: Some("Build completed".to_string()),
    });

    let result = process_hook_event(&p, &config);
    assert_eq!(result.title, "Agent Finished");
    assert_eq!(result.body, "Build completed");
    assert_eq!(result.sound, "Hero");
}

#[test]
fn test_unknown_event() {
    let config = Config::default();
    let p = payload("UnknownEvent");

    let result = process_hook_event(&p, &config);
    assert_eq!(result.title, "Agent Event");
    assert_eq!(result.body, "Event: UnknownEvent");
    assert_eq!(result.sound, "Tink");
}

#[test]
fn test_empty_metadata() {
    let config = Config::default();
    let p = payload("Notification");

    let result = process_hook_event(&p, &config);
    assert_eq!(result.title, "Agent Needs Approval");
    assert_eq!(result.body, "Agent needs your approval");
    assert_eq!(result.sound, "Glass");
}

#[test]
fn test_pre_tool_use_top_level_tool_input() {
    let config = Config::default();
    let mut p = payload("PreToolUse");
    p.tool_name = Some("Bash".to_string());
    p.tool_input = Some(ToolInput { command: Some("cargo build".to_string()) });

    let result = process_hook_event(&p, &config);
    assert_eq!(result.body, "Running: cargo build");
}

#[test]
fn test_pre_tool_use_top_level_without_command() {
    let config = Config::default();
    let mut p = payload("PreToolUse");
    p.tool_name = Some("Bash".to_string());

    let result = process_hook_event(&p, &config);
    assert_eq!(result.body, "Using tool: Bash");
}

#[test]
fn test_pre_tool_use_no_information() {
    let config = Config::default();
    let p = payload("PreToolUse");

    let result = process_hook_event(&p, &config);
    assert_eq!(result.title, "Agent Tool Use");
    assert_eq!(result.body, "Using tool");
    assert_eq!(result.sound, "Pop");
}

#[test]
fn test_stop_without_metadata() {
    let config = Config::default();
    let p = payload("Stop");

    let result = process_hook_event(&p, &config);
    assert_eq!(result.body, "Task completed");
}
