//! Handler for service-domain actions: a pure local mutation.

use vstd::prelude::*;

use crate::actions::ServiceAction;
use crate::appstate::{AWSService, AppState, AppStateView, ComponentType, ProfileView};

verus! {

/// Handles [`ServiceAction`] messages.
pub struct ServiceActionHandler;

/// Selecting a service sets `selected_service` on the active profile and
/// moves the focus to the service view; it is a no-op when no profile is
/// active.
pub open spec fn spec_select_service(s: AppStateView, service: AWSService) -> AppStateView {
    match s.active_profile {
        Some(p) => AppStateView {
            active_profile: Some(ProfileView { selected_service: service, ..p }),
            focus_component: ComponentType::AWSService,
            ..s
        },
        None => s,
    }
}

impl ServiceActionHandler {
    /// Apply one service action to the state.
    pub fn handle(action: ServiceAction, app_state: &mut AppState)
        requires
            old(app_state).wf(),
        ensures
            final(app_state).wf(),
            match action {
                ServiceAction::SelectService { service } => final(app_state)@
                    == spec_select_service(old(app_state)@, service),
            },
    {
        let ghost s0 = app_state@;
        match action {
            ServiceAction::SelectService { service } => {
                match &mut app_state.active_profile {
                    Some(active_profile) => {
                        active_profile.selected_service = service;
                    },
                    None => {
                        assert(app_state@ =~= spec_select_service(s0, service));
                        return ;
                    },
                }
                app_state.focus_component = ComponentType::AWSService;
                assert(app_state@ =~= spec_select_service(s0, service));
            },
        }
    }
}

} // verus!
