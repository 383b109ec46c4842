//! The focus state machine of the UI event loop.
//!
//! Explicit hotkeys jump straight to a view; the cycle keys advance
//! through Profiles → Regions → Services → service view → Profiles, and
//! back.  Cycling into the service view is gated on the active profile
//! having a selected service.  The key handling itself lives with the
//! terminal loop; the decisions live here.

use vstd::prelude::*;

use crate::appstate::{AWSService, ComponentType};

verus! {

/// Where the forward cycle key moves the focus: the service view is
/// entered only when a service is selected, and the non-cycling states
/// keep the focus.
pub open spec fn spec_next_focus(
    current: ComponentType,
    selected_service: AWSService,
) -> ComponentType {
    match current {
        ComponentType::Profiles => ComponentType::Regions,
        ComponentType::Regions => ComponentType::Services,
        ComponentType::Services => if selected_service != AWSService::NoService {
            ComponentType::AWSService
        } else {
            ComponentType::Profiles
        },
        ComponentType::AWSService => ComponentType::Profiles,
        other => other,
    }
}

/// Where the backward cycle key moves the focus: the reverse of
/// [`spec_next_focus`], with the same gate on the service view.
pub open spec fn spec_previous_focus(
    current: ComponentType,
    selected_service: AWSService,
) -> ComponentType {
    match current {
        ComponentType::Profiles => if selected_service != AWSService::NoService {
            ComponentType::AWSService
        } else {
            ComponentType::Services
        },
        ComponentType::Regions => ComponentType::Profiles,
        ComponentType::Services => ComponentType::Regions,
        ComponentType::AWSService => ComponentType::Services,
        other => other,
    }
}

/// See [`spec_next_focus`].  `selected_service` is the active profile's
/// selection; cycling applies only while a profile is active.
pub fn next_focus_component(current: ComponentType, selected_service: AWSService) -> (r:
    ComponentType)
    ensures
        r == spec_next_focus(current, selected_service),
{
    match current {
        ComponentType::Profiles => ComponentType::Regions,
        ComponentType::Regions => ComponentType::Services,
        ComponentType::Services => {
            if selected_service != AWSService::NoService {
                ComponentType::AWSService
            } else {
                ComponentType::Profiles
            }
        },
        ComponentType::AWSService => ComponentType::Profiles,
        other => other,
    }
}

/// See [`spec_previous_focus`].
pub fn previous_focus_component(current: ComponentType, selected_service: AWSService) -> (r:
    ComponentType)
    ensures
        r == spec_previous_focus(current, selected_service),
{
    match current {
        ComponentType::Profiles => {
            if selected_service != AWSService::NoService {
                ComponentType::AWSService
            } else {
                ComponentType::Services
            }
        },
        ComponentType::Regions => ComponentType::Profiles,
        ComponentType::Services => ComponentType::Regions,
        ComponentType::AWSService => ComponentType::Services,
        other => other,
    }
}

/// The cycle keys are mutual inverses wherever they move the focus
/// through the cycle: stepping forward from a cycling state and then
/// backward returns to it, as long as the service selection does not
/// change in between.
pub proof fn lemma_focus_cycle_inverse(current: ComponentType, selected_service: AWSService)
    requires
        current == ComponentType::Profiles || current == ComponentType::Regions || current
            == ComponentType::Services || current == ComponentType::AWSService,
        current == ComponentType::AWSService ==> selected_service != AWSService::NoService,
    ensures
        spec_previous_focus(spec_next_focus(current, selected_service), selected_service)
            == current,
{
}

} // verus!
