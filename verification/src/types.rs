//! Data model: the incoming hook payload, the notification request that is
//! produced from it, and the configuration that tunes sounds and click
//! behaviour. Every option has a fixed default, so nothing here ever fails
//! for want of configuration.

use vstd::prelude::*;
use vstd::string::StringExecFns;

verus! {

/// Fields of the `parameters` object of an event payload that the event
/// mapping reads: only the command line of a shell invocation.
pub struct HookParameters {
    pub command: Option<String>,
}

/// Fields of the free-form `content` object of an event payload that the
/// event mapping reads.
pub struct HookContent {
    pub tool_name: Option<String>,
    pub parameters: Option<HookParameters>,
}

/// Fields of the `tool_input` object of an event payload that the event
/// mapping reads.
pub struct ToolInput {
    pub command: Option<String>,
}

/// Structured metadata carried by an event payload. All fields are optional;
/// the event mapping falls back to fixed texts where they are absent.
pub struct Metadata {
    pub tool_name: Option<String>,
    pub command: Option<String>,
    pub description: Option<String>,
    pub message: Option<String>,
}

/// One lifecycle event received from the agent process. Every field but the
/// event kind is optional.
pub struct HookPayload {
    pub event: String,
    pub content: Option<HookContent>,
    pub metadata: Option<Metadata>,
    pub tool_name: Option<String>,
    pub tool_input: Option<ToolInput>,
    pub session_id: Option<String>,
    pub transcript_path: Option<String>,
    pub cwd: Option<String>,
}

/// A notification ready to be dispatched: title, body and a symbolic sound
/// name. Produced and consumed within one invocation.
pub struct NotificationData {
    pub title: String,
    pub body: String,
    pub sound: String,
}

/// Symbolic sound names, one per recognized event kind plus a fallback.
pub struct SoundConfig {
    pub approval: String,
    pub tool_use: String,
    pub completion: String,
    pub unknown: String,
}

/// Whether a click on a notification re-activates the originating terminal,
/// and the label of the action button.
pub struct ClickBehavior {
    pub enabled: bool,
    pub action_label: String,
}

/// Notification tuning: timeout in milliseconds, sounds, click behaviour.
pub struct NotificationConfig {
    pub timeout: u32,
    pub sounds: SoundConfig,
    pub click_behavior: ClickBehavior,
}

/// Switches used only while exercising the tool by hand.
pub struct TestConfig {
    pub send_notifications: bool,
    pub notification_delay: u64,
}

/// Diagnostic output switch.
pub struct DebugConfig {
    pub enabled: bool,
}

/// The whole configuration.
pub struct Config {
    pub notifications: NotificationConfig,
    pub testing: TestConfig,
    pub debug: DebugConfig,
}

pub fn default_timeout() -> (r: u32)
    ensures
        r == 5000,
{
    5000
}

pub fn default_approval_sound() -> (r: String)
    ensures
        r@ == "Glass"@,
{
    String::from_str("Glass")
}

pub fn default_tool_sound() -> (r: String)
    ensures
        r@ == "Pop"@,
{
    String::from_str("Pop")
}

pub fn default_completion_sound() -> (r: String)
    ensures
        r@ == "Hero"@,
{
    String::from_str("Hero")
}

pub fn default_unknown_sound() -> (r: String)
    ensures
        r@ == "Tink"@,
{
    String::from_str("Tink")
}

pub fn default_delay() -> (r: u64)
    ensures
        r == 1000,
{
    1000
}

pub fn default_enable_click() -> (r: bool)
    ensures
        r,
{
    true
}

pub fn default_action_label() -> (r: String)
    ensures
        r@ == "Go to Terminal"@,
{
    String::from_str("Go to Terminal")
}

/// The fixed default sound table.
pub open spec fn is_default_sounds(s: SoundConfig) -> bool {
    &&& s.approval@ == "Glass"@
    &&& s.tool_use@ == "Pop"@
    &&& s.completion@ == "Hero"@
    &&& s.unknown@ == "Tink"@
}

/// The fixed default click behaviour: enabled, with a fixed button label.
pub open spec fn is_default_click_behavior(c: ClickBehavior) -> bool {
    &&& c.enabled
    &&& c.action_label@ == "Go to Terminal"@
}

/// The fixed defaults of the notification options.
pub open spec fn is_default_notifications(n: NotificationConfig) -> bool {
    &&& n.timeout == 5000
    &&& is_default_sounds(n.sounds)
    &&& is_default_click_behavior(n.click_behavior)
}

/// The fixed defaults of the whole configuration: notifications as above,
/// no test sends, one-second test delay, debug off.
pub open spec fn is_default_config(c: Config) -> bool {
    &&& is_default_notifications(c.notifications)
    &&& !c.testing.send_notifications
    &&& c.testing.notification_delay == 1000
    &&& !c.debug.enabled
}

pub fn default_sound_config() -> (r: SoundConfig)
    ensures
        is_default_sounds(r),
{
    SoundConfig {
        approval: default_approval_sound(),
        tool_use: default_tool_sound(),
        completion: default_completion_sound(),
        unknown: default_unknown_sound(),
    }
}

pub fn default_click_behavior() -> (r: ClickBehavior)
    ensures
        is_default_click_behavior(r),
{
    ClickBehavior { enabled: default_enable_click(), action_label: default_action_label() }
}

impl Default for SoundConfig {
    fn default() -> (r: Self)
        ensures
            is_default_sounds(r),
    {
        default_sound_config()
    }
}

impl Default for ClickBehavior {
    fn default() -> (r: Self)
        ensures
            is_default_click_behavior(r),
    {
        default_click_behavior()
    }
}

impl Default for NotificationConfig {
    fn default() -> (r: Self)
        ensures
            is_default_notifications(r),
    {
        NotificationConfig {
            timeout: default_timeout(),
            sounds: default_sound_config(),
            click_behavior: default_click_behavior(),
        }
    }
}

impl Default for TestConfig {
    fn default() -> (r: Self)
        ensures
            !r.send_notifications,
            r.notification_delay == 1000,
    {
        TestConfig { send_notifications: false, notification_delay: default_delay() }
    }
}

impl Default for DebugConfig {
    fn default() -> (r: Self)
        ensures
            !r.enabled,
    {
        DebugConfig { enabled: false }
    }
}

impl Default for Config {
    fn default() -> (r: Self)
        ensures
            is_default_config(r),
    {
        Config {
            notifications: NotificationConfig::default(),
            testing: TestConfig::default(),
            debug: DebugConfig::default(),
        }
    }
}

} // verus!
