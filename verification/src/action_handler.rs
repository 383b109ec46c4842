//! Bookkeeping shared by the asynchronous handlers: the `action_pending`
//! flag is raised when an in-flight remote operation begins and released
//! when its handling completes.

use vstd::prelude::*;
use vstd::string::StringExecFns;

use crate::appstate::{AppState, AppStateView, StatusStateView};
use crate::ui_config::{messages, spec_pending_message};

verus! {

/// Groups the pending-flag bookkeeping used around asynchronous handlers.
pub struct ActionHandler;

/// Raising the pending flag: the pending message is shown and a stale error
/// message is cleared; nothing else changes.
pub open spec fn spec_initiate_action_pending(s: AppStateView) -> AppStateView {
    AppStateView {
        status_state: StatusStateView {
            action_pending: true,
            message: spec_pending_message(),
            err_message: Seq::empty(),
            ..s.status_state
        },
        ..s
    }
}

/// Releasing the pending flag: the pending message is cleared unless an
/// error message is showing; nothing else changes.
pub open spec fn spec_release_action_pending(s: AppStateView) -> AppStateView {
    AppStateView {
        status_state: StatusStateView {
            action_pending: false,
            message: if s.status_state.err_message.len() == 0 {
                Seq::empty()
            } else {
                s.status_state.message
            },
            ..s.status_state
        },
        ..s
    }
}

impl ActionHandler {
    /// Mark an asynchronous action as in flight.
    pub fn initiate_action_pending(app_state: &mut AppState)
        requires
            old(app_state).wf(),
        ensures
            final(app_state).wf(),
            final(app_state)@ == spec_initiate_action_pending(old(app_state)@),
    {
        let ghost s0 = app_state@;
        app_state.status_state.action_pending = true;
        app_state.status_state.message = messages().pending_action.to_owned();
        app_state.status_state.err_message = String::new();
        assert(app_state@ =~= spec_initiate_action_pending(s0));
    }

    /// Mark the in-flight action as handled.
    pub fn release_action_pending(app_state: &mut AppState)
        requires
            old(app_state).wf(),
        ensures
            final(app_state).wf(),
            final(app_state)@ == spec_release_action_pending(old(app_state)@),
    {
        let ghost s0 = app_state@;
        if app_state.status_state.err_message.as_str().is_empty() {
            app_state.status_state.message = String::new();
        }
        app_state.status_state.action_pending = false;
        assert(app_state@ =~= spec_release_action_pending(s0));
    }
}

} // verus!
