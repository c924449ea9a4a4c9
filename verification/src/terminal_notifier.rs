//! Planning for the notification dispatcher: where the bundled notifier
//! lives in the per-user cache, whether the extraction step may be skipped,
//! the exact argument list of a notifier invocation, and how a finished
//! invocation is judged. The dispatcher itself performs the file and
//! process work around these plans.

use vstd::prelude::*;
use vstd::string::StringExecFns;

use crate::types::{Config, NotificationData};

verus! {

/// The icon attached to every notification.
pub open spec fn spec_app_icon() -> Seq<char> {
    "https://www.anthropic.com/favicon.ico"@
}

/// The per-user cache directory, derived from the home directory when one
/// is known.
pub fn cache_dir(home: Option<String>) -> (r: Option<String>)
    ensures
        home matches Some(h) ==> r matches Some(p) && p@ == h@ + "/Library/Caches"@,
        home is None ==> r is None,
{
    match home {
        Some(h) => Some(h.concat("/Library/Caches")),
        None => None,
    }
}

/// The three paths of the extracted notifier below a cache base: the
/// tool's own cache directory, the application bundle inside it, and the
/// executable inside the bundle.
pub struct NotifierPaths {
    pub cache_dir: String,
    pub app_path: String,
    pub binary_path: String,
}

/// Lay out the notifier's cache paths below the given base directory.
pub fn notifier_paths(cache_base: &str) -> (r: NotifierPaths)
    ensures
        r.cache_dir@ == cache_base@ + "/agent-notifier"@,
        r.app_path@ == r.cache_dir@ + "/terminal-notifier.app"@,
        r.binary_path@ == r.app_path@ + "/Contents/MacOS/terminal-notifier"@,
{
    let cache_dir = String::from_str(cache_base).concat("/agent-notifier");
    let app_path = cache_dir.clone().concat("/terminal-notifier.app");
    let binary_path = app_path.clone().concat("/Contents/MacOS/terminal-notifier");
    NotifierPaths { cache_dir, app_path, binary_path }
}

/// What one run of the resolution path does with the cached notifier.
pub enum NotifierResolution {
    /// The extracted binary already stands in the cache: use it as is.
    UseExisting,
    /// Remove whatever tree is there and extract the bundle afresh.
    ExtractFresh,
}

/// One run of the resolution path over the cache state: a binary that
/// already stands as a regular file is used as is; otherwise the tree is
/// extracted afresh. Either way, a completed run leaves the binary
/// standing as a regular file.
pub open spec fn spec_resolution_step(binary_is_regular_file: bool) -> (NotifierResolution, bool) {
    if binary_is_regular_file {
        (NotifierResolution::UseExisting, true)
    } else {
        (NotifierResolution::ExtractFresh, true)
    }
}

/// Decide whether extraction may be skipped: it may exactly when the
/// target binary already exists as a regular file.
pub fn resolve_notifier_extraction(binary_is_regular_file: bool) -> (r: NotifierResolution)
    ensures
        r == spec_resolution_step(binary_is_regular_file).0,
        r is UseExisting <==> binary_is_regular_file,
{
    if binary_is_regular_file {
        NotifierResolution::UseExisting
    } else {
        NotifierResolution::ExtractFresh
    }
}

/// Law: the resolution path is idempotent. When the target binary already
/// exists it is never re-extracted, and after any completed run every
/// later run finds the binary in place and skips extraction.
pub proof fn lemma_resolution_idempotent(binary_is_regular_file: bool)
    ensures
        binary_is_regular_file ==> spec_resolution_step(binary_is_regular_file).0
            is UseExisting,
        spec_resolution_step(spec_resolution_step(binary_is_regular_file).1).0 is UseExisting,
{
}

/// The exact argument list of a notifier invocation: title, message, sound
/// and icon always; when click behaviour is enabled and both a session id
/// and the activation tool's path are known, also the click command that
/// re-invokes the activation tool with the session id as its sole
/// argument, and the configured button label.
pub open spec fn spec_notifier_args(
    data: NotificationData,
    config: Config,
    session_id: Option<Seq<char>>,
    activate_binary: Option<Seq<char>>,
) -> Seq<Seq<char>> {
    let base = seq![
        "-title"@,
        data.title@,
        "-message"@,
        data.body@,
        "-sound"@,
        data.sound@,
        "-appIcon"@,
        spec_app_icon(),
    ];
    if config.notifications.click_behavior.enabled {
        match (session_id, activate_binary) {
            (Some(sid), Some(bin)) => base + seq![
                "-execute"@,
                bin + " "@ + sid,
                "-actions"@,
                config.notifications.click_behavior.action_label@,
            ],
            _ => base,
        }
    } else {
        base
    }
}

/// Build the argument list for one notifier invocation.
pub fn build_notifier_args(
    data: &NotificationData,
    config: &Config,
    session_id: Option<String>,
    activate_binary: Option<String>,
) -> (r: Vec<String>)
    ensures
        r.deep_view() == spec_notifier_args(
            *data,
            *config,
            session_id.deep_view(),
            activate_binary.deep_view(),
        ),
{
    let mut args: Vec<String> = Vec::new();
    args.push(String::from_str("-title"));
    args.push(data.title.clone());
    args.push(String::from_str("-message"));
    args.push(data.body.clone());
    args.push(String::from_str("-sound"));
    args.push(data.sound.clone());
    args.push(String::from_str("-appIcon"));
    args.push(String::from_str("https://www.anthropic.com/favicon.ico"));
    if config.notifications.click_behavior.enabled {
        match (session_id, activate_binary) {
            (Some(sid), Some(bin)) => {
                args.push(String::from_str("-execute"));
                args.push(bin.concat(" ").concat(sid.as_str()));
                args.push(String::from_str("-actions"));
                args.push(config.notifications.click_behavior.action_label.clone());
            },
            _ => {},
        }
    }
    proof {
        assert(args.deep_view() =~= spec_notifier_args(
            *data,
            *config,
            session_id.deep_view(),
            activate_binary.deep_view(),
        ));
    }
    args
}

/// Judge a finished notifier invocation: success passes, and a nonzero
/// exit becomes an error carrying the subprocess's error stream. No
/// fallback is attempted within the same call.
pub fn notifier_outcome(exit_success: bool, stderr: &str) -> (r: Result<(), String>)
    ensures
        exit_success ==> r is Ok,
        !exit_success ==> (r matches Err(e) && e@ == "terminal-notifier failed: "@ + stderr@),
{
    if exit_success {
        Ok(())
    } else {
        Err(String::from_str("terminal-notifier failed: ").concat(stderr))
    }
}

} // verus!
