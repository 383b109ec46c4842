//! Handler for the log-browsing actions.
//!
//! Listing log groups requires an active profile; the listing itself is a
//! remote operation, and both outcomes are folded back into the state here:
//! success replaces the cached list in the order the call returned, failure
//! clears it and surfaces a status error.

use vstd::prelude::*;
use vstd::string::StringExecFns;

use crate::appstate::{AppState, AppStateView, StatusStateView};
use crate::cloud_watch_logs_state::{
    empty_cloud_watch_state, CloudWatchLogGroup, CloudWatchLogGroupView, CloudWatchState,
    CloudWatchStateView,
};
use crate::remote::{RemoteError, RemoteErrorView};
use crate::ui_config::{messages, spec_error_caller_identity_message};

verus! {

/// Handles [`crate::actions::CloudWatchLogsAction`] messages.
pub struct CloudWatchLogsActionHandler;

/// The outcome of the log-group listing folded into the state: on success
/// the cached list is replaced by the results in the order returned and the
/// selection is cleared; on failure the list is cleared and a status error
/// with the verbose diagnostic is shown.
pub open spec fn spec_apply_log_groups(
    s: AppStateView,
    r: Result<Seq<CloudWatchLogGroupView>, RemoteErrorView>,
) -> AppStateView {
    match r {
        Ok(groups) => AppStateView {
            cloud_watch_state: CloudWatchStateView { log_groups: groups, selected_log_group: None },
            ..s
        },
        Err(e) => AppStateView {
            status_state: StatusStateView {
                err_message: spec_error_caller_identity_message(),
                err_message_backtrace: e.backtrace,
                ..s.status_state
            },
            cloud_watch_state: empty_cloud_watch_state(),
            ..s
        },
    }
}

impl CloudWatchLogsActionHandler {
    /// Fold the outcome of the listing call into the state.
    pub fn apply_log_groups(
        app_state: &mut AppState,
        result: Result<Vec<CloudWatchLogGroup>, RemoteError>,
    )
        requires
            old(app_state).wf(),
        ensures
            final(app_state).wf(),
            final(app_state)@ == spec_apply_log_groups(
                old(app_state)@,
                match result {
                    Ok(v) => Ok(v.deep_view()),
                    Err(e) => Err(e@),
                },
            ),
    {
        let ghost s0 = app_state@;
        let ghost r0: Result<Seq<CloudWatchLogGroupView>, RemoteErrorView> = match &result {
            Ok(v) => Ok(v.deep_view()),
            Err(e) => Err(e@),
        };
        match result {
            Ok(log_groups) => {
                app_state.cloud_watch_state = CloudWatchState {
                    log_groups,
                    selected_log_group: None,
                };
                assert(app_state@ =~= spec_apply_log_groups(s0, r0));
            },
            Err(e) => {
                app_state.status_state.err_message = messages().error_caller_identity.to_owned();
                app_state.status_state.err_message_backtrace = e.backtrace;
                app_state.cloud_watch_state = CloudWatchState::default();
                assert(app_state@ =~= spec_apply_log_groups(s0, r0));
            },
        }
    }
}

} // verus!
