//! Bridges lifecycle events from a coding-agent process to desktop
//! notifications, keeping enough context about the originating terminal
//! session that a click on the notification can return the user to that
//! terminal window.
//!
//! The crate maps each incoming event to a notification request, keeps a
//! registry of session records with time-based eviction, detects which
//! terminal launched the agent, and plans both the notifier invocation and
//! the later activation of the recorded terminal.

pub mod activation;
pub mod session_store;
pub mod strutil;
pub mod terminal_detector;
pub mod terminal_notifier;
pub mod types;

use vstd::prelude::*;
use vstd::string::{StrSliceExecFns, StringExecFns};

use crate::strutil::str_eq;
use crate::types::{Config, HookPayload, Metadata, NotificationData, SoundConfig};

verus! {

/// The title of the notification for an event kind: one fixed text per
/// recognized kind, and a fixed fallback for every other kind.
pub open spec fn spec_event_title(event: Seq<char>) -> Seq<char> {
    if event == "Notification"@ {
        "Agent Needs Approval"@
    } else if event == "PreToolUse"@ {
        "Agent Tool Use"@
    } else if event == "Stop"@ {
        "Agent Finished"@
    } else {
        "Agent Event"@
    }
}

/// The sound for an event kind, drawn from the configured sound table,
/// with the table's fallback entry for unrecognized kinds.
pub open spec fn spec_event_sound(event: Seq<char>, sounds: SoundConfig) -> Seq<char> {
    if event == "Notification"@ {
        sounds.approval@
    } else if event == "PreToolUse"@ {
        sounds.tool_use@
    } else if event == "Stop"@ {
        sounds.completion@
    } else {
        sounds.unknown@
    }
}

/// The body of an approval notification: name the tool if given, else pass
/// the payload's own message through, else a fixed text.
pub open spec fn spec_notification_body(metadata: Option<Metadata>) -> Seq<char> {
    match metadata {
        Some(m) => match m.tool_name {
            Some(t) => "Agent needs approval to use: "@ + t@,
            None => match m.message {
                Some(msg) => msg@,
                None => "Agent needs your approval"@,
            },
        },
        None => "Agent needs your approval"@,
    }
}

/// The body of a tool-use notification. Structured metadata wins; then the
/// payload's top-level tool name and input; then the free-form content
/// object; a shell tool with a known command line is shown as that command.
pub open spec fn spec_pre_tool_use_body(p: HookPayload) -> Seq<char> {
    match p.metadata {
        Some(m) => match (m.tool_name, m.command) {
            (Some(t), Some(c)) => if t@ == "Bash"@ {
                "Running: "@ + c@
            } else {
                "Using tool: "@ + t@
            },
            (Some(t), None) => "Using tool: "@ + t@,
            (None, _) => "Using tool"@,
        },
        None => match p.tool_name {
            Some(t) => if t@ == "Bash"@ {
                match p.tool_input {
                    Some(ti) => match ti.command {
                        Some(c) => "Running: "@ + c@,
                        None => "Using tool: "@ + t@,
                    },
                    None => "Using tool: "@ + t@,
                }
            } else {
                "Using tool: "@ + t@
            },
            None => match p.content {
                Some(ct) => match ct.tool_name {
                    Some(t) => if t@ == "Bash"@ {
                        match ct.parameters {
                            Some(pp) => match pp.command {
                                Some(c) => "Running: "@ + c@,
                                None => "Using tool: "@ + t@,
                            },
                            None => "Using tool: "@ + t@,
                        }
                    } else {
                        "Using tool: "@ + t@
                    },
                    None => "Using tool"@,
                },
                None => "Using tool"@,
            },
        },
    }
}

/// The body of a completion notification: the description if given, else
/// the message, else a fixed text.
pub open spec fn spec_stop_body(metadata: Option<Metadata>) -> Seq<char> {
    match metadata {
        Some(m) => match m.description {
            Some(d) => d@,
            None => match m.message {
                Some(msg) => msg@,
                None => "Task completed"@,
            },
        },
        None => "Task completed"@,
    }
}

/// The body for an event: per-kind texts for the recognized kinds, and for
/// every other kind a fallback naming the kind itself.
pub open spec fn spec_event_body(p: HookPayload) -> Seq<char> {
    if p.event@ == "Notification"@ {
        spec_notification_body(p.metadata)
    } else if p.event@ == "PreToolUse"@ {
        spec_pre_tool_use_body(p)
    } else if p.event@ == "Stop"@ {
        spec_stop_body(p.metadata)
    } else {
        "Event: "@ + p.event@
    }
}

/// Map one lifecycle event to the notification it should raise. Total: an
/// unrecognized event kind still yields a well-formed notification with the
/// fallback title, a body naming the kind, and the fallback sound.
pub fn process_hook_event(payload: &HookPayload, config: &Config) -> (r: NotificationData)
    ensures
        r.title@ == spec_event_title(payload.event@),
        r.body@ == spec_event_body(*payload),
        r.sound@ == spec_event_sound(payload.event@, config.notifications.sounds),
{
    let sounds = &config.notifications.sounds;
    if str_eq(payload.event.as_str(), "Notification") {
        let body: String = match &payload.metadata {
            Some(m) => match &m.tool_name {
                Some(t) => String::from_str("Agent needs approval to use: ").concat(t.as_str()),
                None => match &m.message {
                    Some(msg) => msg.clone(),
                    None => String::from_str("Agent needs your approval"),
                },
            },
            None => String::from_str("Agent needs your approval"),
        };
        NotificationData {
            title: String::from_str("Agent Needs Approval"),
            body,
            sound: sounds.approval.clone(),
        }
    } else if str_eq(payload.event.as_str(), "PreToolUse") {
        let body: String = match &payload.metadata {
            Some(m) => match (&m.tool_name, &m.command) {
                (Some(t), Some(c)) => {
                    if str_eq(t.as_str(), "Bash") {
                        String::from_str("Running: ").concat(c.as_str())
                    } else {
                        String::from_str("Using tool: ").concat(t.as_str())
                    }
                },
                (Some(t), None) => String::from_str("Using tool: ").concat(t.as_str()),
                (None, _) => String::from_str("Using tool"),
            },
            None => match &payload.tool_name {
                Some(t) => {
                    if str_eq(t.as_str(), "Bash") {
                        match &payload.tool_input {
                            Some(ti) => match &ti.command {
                                Some(c) => String::from_str("Running: ").concat(c.as_str()),
                                None => String::from_str("Using tool: ").concat(t.as_str()),
                            },
                            None => String::from_str("Using tool: ").concat(t.as_str()),
                        }
                    } else {
                        String::from_str("Using tool: ").concat(t.as_str())
                    }
                },
                None => match &payload.content {
                    Some(ct) => match &ct.tool_name {
                        Some(t) => {
                            if str_eq(t.as_str(), "Bash") {
                                match &ct.parameters {
                                    Some(pp) => match &pp.command {
                                        Some(c) => String::from_str("Running: ").concat(
                                            c.as_str(),
                                        ),
                                        None => String::from_str("Using tool: ").concat(
                                            t.as_str(),
                                        ),
                                    },
                                    None => String::from_str("Using tool: ").concat(t.as_str()),
                                }
                            } else {
                                String::from_str("Using tool: ").concat(t.as_str())
                            }
                        },
                        None => String::from_str("Using tool"),
                    },
                    None => String::from_str("Using tool"),
                },
            },
        };
        NotificationData {
            title: String::from_str("Agent Tool Use"),
            body,
            sound: sounds.tool_use.clone(),
        }
    } else if str_eq(payload.event.as_str(), "Stop") {
        let body: String = match &payload.metadata {
            Some(m) => match &m.description {
                Some(d) => d.clone(),
                None => match &m.message {
                    Some(msg) => msg.clone(),
                    None => String::from_str("Task completed"),
                },
            },
            None => String::from_str("Task completed"),
        };
        NotificationData {
            title: String::from_str("Agent Finished"),
            body,
            sound: sounds.completion.clone(),
        }
    } else {
        NotificationData {
            title: String::from_str("Agent Event"),
            body: String::from_str("Event: ").concat(payload.event.as_str()),
            sound: sounds.unknown.clone(),
        }
    }
}

} // verus!
