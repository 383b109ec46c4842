//! Handler for region-domain actions: a pure local mutation.

use vstd::prelude::*;

use crate::actions::RegionAction;
use crate::appstate::{AppState, AppStateView, ProfileView};

verus! {

/// Handles [`RegionAction`] messages.
pub struct RegionActionHandler;

/// Selecting a region sets `selected_region` on the active profile and is a
/// no-op — not an error — when no profile is active.
pub open spec fn spec_select_region(s: AppStateView, region_name: Seq<char>) -> AppStateView {
    match s.active_profile {
        Some(p) => AppStateView {
            active_profile: Some(ProfileView { selected_region: Some(region_name), ..p }),
            ..s
        },
        None => s,
    }
}

impl RegionActionHandler {
    /// Apply one region action to the state.
    pub fn handle(action: RegionAction, app_state: &mut AppState)
        requires
            old(app_state).wf(),
        ensures
            final(app_state).wf(),
            match action {
                RegionAction::SelectRegion { region_name } => final(app_state)@
                    == spec_select_region(old(app_state)@, region_name@),
            },
    {
        let ghost s0 = app_state@;
        match action {
            RegionAction::SelectRegion { region_name } => {
                match &mut app_state.active_profile {
                    Some(active_profile) => {
                        active_profile.selected_region = Some(region_name);
                        assert(app_state@ =~= spec_select_region(s0, region_name@));
                    },
                    None => {
                        assert(app_state@ =~= spec_select_region(s0, region_name@));
                    },
                }
            },
        }
    }
}

} // verus!
