//! The action vocabulary: immutable messages describing an intended state
//! change, possibly requiring remote I/O.
//!
//! Enqueueing an action has no effect; all effects occur when the state
//! store dispatches it.

use vstd::prelude::*;

use crate::appstate::{AWSService, ComponentType, MenuItem, MenuItemView, ProfileSource, Rect};

verus! {

/// Profile-domain actions.
pub enum ProfileAction {
    SelectProfile { profile: (String, ProfileSource) },
}

/// Region-domain actions.
pub enum RegionAction {
    SelectRegion { region_name: String },
}

/// Service-domain actions.
pub enum ServiceAction {
    SelectService { service: AWSService },
}

/// Log-browsing actions.
pub enum CloudWatchLogsAction {
    GetLogGroups { token: Option<String> },
}

/// Everything the UI loop can ask of the state store.
pub enum Action {
    SetFocus { component_type: ComponentType },
    SetBreadcrumbs { breadcrumbs: Vec<String> },
    SetMenu { menu_items: [Vec<MenuItem>; 3] },
    SetTerminalArea { area: Rect },
    ToggleSidePane,
    RenderDuration { duration: u64 },
    Profile { action: ProfileAction },
    Region { action: RegionAction },
    Service { action: ServiceAction },
    CloudWatchLogs { action: CloudWatchLogsAction },
}

/// Mathematical abstraction of [`Action`], with the domain payloads
/// flattened to plain values.
pub enum ActionView {
    SetFocus { component_type: ComponentType },
    SetBreadcrumbs { breadcrumbs: Seq<Seq<char>> },
    SetMenu { menu_items: Seq<Seq<MenuItemView>> },
    SetTerminalArea { area: Rect },
    ToggleSidePane,
    RenderDuration { duration: u64 },
    SelectProfile { name: Seq<char>, source: ProfileSource },
    SelectRegion { region_name: Seq<char> },
    SelectService { service: AWSService },
    GetLogGroups { token: Option<Seq<char>> },
}

impl View for Action {
    type V = ActionView;

    open spec fn view(&self) -> ActionView {
        match self {
            Action::SetFocus { component_type } => ActionView::SetFocus {
                component_type: *component_type,
            },
            Action::SetBreadcrumbs { breadcrumbs } => ActionView::SetBreadcrumbs {
                breadcrumbs: breadcrumbs.deep_view(),
            },
            Action::SetMenu { menu_items } => ActionView::SetMenu {
                menu_items: menu_items.deep_view(),
            },
            Action::SetTerminalArea { area } => ActionView::SetTerminalArea { area: *area },
            Action::ToggleSidePane => ActionView::ToggleSidePane,
            Action::RenderDuration { duration } => ActionView::RenderDuration {
                duration: *duration,
            },
            Action::Profile { action } => match action {
                ProfileAction::SelectProfile { profile } => ActionView::SelectProfile {
                    name: profile.0@,
                    source: profile.1,
                },
            },
            Action::Region { action } => match action {
                RegionAction::SelectRegion { region_name } => ActionView::SelectRegion {
                    region_name: region_name@,
                },
            },
            Action::Service { action } => match action {
                ServiceAction::SelectService { service } => ActionView::SelectService {
                    service: *service,
                },
            },
            Action::CloudWatchLogs { action } => match action {
                CloudWatchLogsAction::GetLogGroups { token } => ActionView::GetLogGroups {
                    token: token.deep_view(),
                },
            },
        }
    }
}

impl DeepView for Action {
    type V = ActionView;

    open spec fn deep_view(&self) -> ActionView {
        self.view()
    }
}

} // verus!
