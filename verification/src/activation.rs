//! Planning for the session activator: look a session id up in the
//! registry and decide what to hand the desktop scripting bridge, or which
//! diagnostic to report. The activator tool performs the lookup's I/O and
//! the bridge call around this plan.

use vstd::prelude::*;

use crate::session_store::{lists_keys, spec_get, SessionStore};
use crate::terminal_detector::{activate_terminal, spec_real_app_name};

verus! {

/// Why a session cannot be activated.
#[derive(Debug, PartialEq, Eq)]
pub enum ActivationError {
    /// No record is stored under the id; `known` lists every id currently
    /// in the registry, to aid the user.
    UnknownSession { known: Vec<String> },
    /// The record exists, but no terminal was ever detected for it.
    NoTerminalApp,
}

/// Plan the activation of the session stored under an id. On a hit with a
/// recorded terminal, the application name to hand the scripting bridge;
/// on a miss, the complete list of known ids; on a record without a
/// detected terminal, the corresponding failure.
pub fn plan_activation(store: &SessionStore, session_id: &str) -> (r: Result<
    String,
    ActivationError,
>)
    requires
        store.wf(),
    ensures
        match r {
            Ok(name) => spec_get(store@, session_id@) matches Some(rec)
                && rec.terminal_info.terminal_app matches Some(app) && name@
                == spec_real_app_name(app),
            Err(e) => match e {
                ActivationError::UnknownSession { known } => spec_get(store@, session_id@) is None
                    && lists_keys(known@, store@),
                ActivationError::NoTerminalApp => spec_get(store@, session_id@) matches Some(rec)
                    && rec.terminal_info.terminal_app is None,
            },
        },
{
    match store.get_session(session_id) {
        Some(rec) => match activate_terminal(&rec.terminal_info) {
            Ok(name) => Ok(name),
            Err(_) => Err(ActivationError::NoTerminalApp),
        },
        None => Err(ActivationError::UnknownSession { known: store.list_sessions() }),
    }
}

} // verus!
