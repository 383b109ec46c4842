//! Handler for profile-domain actions: resolving, activating and caching
//! profiles.
//!
//! Selecting a profile is the one multi-step handler.  A cached, healthy
//! profile is reused verbatim with no remote call; otherwise the store asks
//! the surrounding loop for a session, an identity check and the region
//! list in turn, and every outcome — success or failure at either step —
//! is folded back into the state here.

use vstd::prelude::*;
use vstd::string::StringExecFns;

use crate::appstate::{
    AWSService, AppState, AppStateView, ComponentType, Profile, ProfileSource, ProfileView,
    ProfilesStateView, Session, SessionView, StatusStateView, ToolbarStateView,
};
use crate::remote::{AwsCallerIdentity, AwsCallerIdentityView, RemoteError, RemoteErrorView};

verus! {

/// Handles [`crate::actions::ProfileAction`] messages.
pub struct ProfileActionHandler;

/// The user-facing message recorded for a failed profile selection.
pub open spec fn spec_profile_error_message(m: Seq<char>) -> Seq<char> {
    "Error "@ + m + ". Press <CRL-m> for more information."@
}

/// The profile recorded when resolution fails at any step: empty
/// account/user/regions, a short message and a verbose backtrace.
pub open spec fn spec_failed_profile(
    name: Seq<char>,
    source: ProfileSource,
    session: Option<SessionView>,
    e: RemoteErrorView,
) -> ProfileView {
    ProfileView {
        name,
        source,
        session,
        account: Seq::empty(),
        user: Seq::empty(),
        err_message: spec_profile_error_message(e.message),
        err_message_backtrace: e.backtrace,
        regions: Seq::empty(),
        selected_region: None,
        selected_service: AWSService::NoService,
    }
}

/// The profile recorded when resolution succeeds: identity captured, the
/// available regions taken over, the session's default region preselected.
pub open spec fn spec_resolved_profile(
    name: Seq<char>,
    source: ProfileSource,
    session: SessionView,
    identity: AwsCallerIdentityView,
    regions: Seq<Seq<char>>,
) -> ProfileView {
    ProfileView {
        name,
        source,
        session: Some(session),
        account: identity.account,
        user: identity.user_id,
        err_message: Seq::empty(),
        err_message_backtrace: Seq::empty(),
        regions,
        selected_region: session.region,
        selected_service: AWSService::NoService,
    }
}

/// Deactivating: a healthy active profile moves into the cache keyed by
/// its name before a new one is activated.
pub open spec fn spec_stash_active(s: AppStateView) -> AppStateView {
    match s.active_profile {
        Some(p) => if p.is_healthy() {
            AppStateView {
                active_profile: None,
                profile_state: ProfilesStateView {
                    profiles: s.profile_state.profiles.insert(p.name, p),
                    ..s.profile_state
                },
                ..s
            }
        } else {
            AppStateView { active_profile: None, ..s }
        },
        None => s,
    }
}

/// Activating a healthy profile: the displaced active profile is cached,
/// the toolbar mirrors name/account/user, status message and error fields
/// are cleared, and the focus moves to the services view.
pub open spec fn spec_activate_profile(s: AppStateView, p: ProfileView) -> AppStateView {
    let s1 = spec_stash_active(s);
    AppStateView {
        active_profile: Some(p),
        focus_component: ComponentType::Services,
        toolbar_state: ToolbarStateView {
            profile_name: p.name,
            account: p.account,
            user: p.user,
            ..s1.toolbar_state
        },
        status_state: StatusStateView {
            message: Seq::empty(),
            err_message: Seq::empty(),
            err_message_backtrace: Seq::empty(),
            ..s1.status_state
        },
        ..s1
    }
}

/// A failed selection: the failed profile is recorded in the cache, the
/// status line surfaces its message and backtrace, and the previously
/// active profile and the toolbar are left untouched.
pub open spec fn spec_fail_profile_selection(s: AppStateView, p: ProfileView) -> AppStateView {
    AppStateView {
        profile_state: ProfilesStateView {
            profiles: s.profile_state.profiles.insert(p.name, p),
            ..s.profile_state
        },
        status_state: StatusStateView {
            message: Seq::empty(),
            err_message: p.err_message,
            err_message_backtrace: p.err_message_backtrace,
            ..s.status_state
        },
        ..s
    }
}

/// Builds the user-facing message for a failed profile selection.
pub fn profile_error_message(m: &String) -> (r: String)
    ensures
        r@ == spec_profile_error_message(m@),
{
    let mut r = "Error ".to_owned();
    r.append(m.as_str());
    r.append(". Press <CRL-m> for more information.");
    r
}

impl ProfileActionHandler {
    /// Build the profile recorded for a failed resolution.
    pub fn failed_profile(
        name: String,
        source: ProfileSource,
        session: Option<Session>,
        err: &RemoteError,
    ) -> (p: Profile)
        ensures
            p@ == spec_failed_profile(
                name@,
                source,
                match session {
                    Some(s) => Some(s@),
                    None => None,
                },
                err@,
            ),
            !p@.is_healthy(),
    {
        let ghost name0 = name@;
        let ghost sess0: Option<SessionView> = match &session {
            Some(s) => Some(s@),
            None => None,
        };
        let err_message = profile_error_message(&err.message);
        let p = Profile {
            name,
            source,
            session,
            account: String::new(),
            user: String::new(),
            err_message,
            err_message_backtrace: err.backtrace.clone(),
            regions: Vec::new(),
            selected_region: None,
            selected_service: AWSService::NoService,
        };
        assert(p@ =~= spec_failed_profile(name0, source, sess0, err@));
        proof {
            reveal_strlit("Error ");
            assert(p.err_message@.len() > 0);
        }
        p
    }

    /// Build the profile recorded for a successful resolution.
    pub fn resolved_profile(
        name: String,
        source: ProfileSource,
        session: Session,
        identity: AwsCallerIdentity,
        regions: Vec<String>,
    ) -> (p: Profile)
        ensures
            p@ == spec_resolved_profile(name@, source, session@, identity@, regions.deep_view()),
            p@.is_healthy(),
            p@.session is Some,
    {
        let ghost name0 = name@;
        let ghost sess0 = session@;
        let ghost id0 = identity@;
        let ghost regs0 = regions.deep_view();
        let selected_region = crate::cloud_watch_logs_state::clone_opt_string(&session.region);
        let p = Profile {
            name,
            source,
            session: Some(session),
            account: identity.account,
            user: identity.user_id,
            err_message: String::new(),
            err_message_backtrace: String::new(),
            regions,
            selected_region,
            selected_service: AWSService::NoService,
        };
        assert(p@ =~= spec_resolved_profile(name0, source, sess0, id0, regs0));
        p
    }

    /// Activate a healthy profile.
    pub fn activate_profile(app_state: &mut AppState, profile: Profile)
        requires
            old(app_state).wf(),
            profile@.is_healthy(),
            profile@.session is Some,
        ensures
            final(app_state).wf(),
            final(app_state)@ == spec_activate_profile(old(app_state)@, profile@),
    {
        let ghost s0 = app_state@;
        match app_state.active_profile.take() {
            Some(active) => {
                if active.err_message.as_str().is_empty() {
                    app_state.profile_state.insert_profile(active);
                }
            },
            None => {},
        }
        assert(app_state@ =~= spec_stash_active(s0));
        app_state.toolbar_state.profile_name = profile.name.clone();
        app_state.toolbar_state.account = profile.account.clone();
        app_state.toolbar_state.user = profile.user.clone();
        app_state.status_state.message = String::new();
        app_state.status_state.err_message = String::new();
        app_state.status_state.err_message_backtrace = String::new();
        app_state.focus_component = ComponentType::Services;
        app_state.active_profile = Some(profile);
        assert(app_state@ =~= spec_activate_profile(s0, profile@));
    }

    /// Record a failed selection.
    pub fn fail_profile_selection(app_state: &mut AppState, profile: Profile)
        requires
            old(app_state).wf(),
            !profile@.is_healthy(),
        ensures
            final(app_state).wf(),
            final(app_state)@ == spec_fail_profile_selection(old(app_state)@, profile@),
    {
        let ghost s0 = app_state@;
        app_state.status_state.message = String::new();
        app_state.status_state.err_message = profile.err_message.clone();
        app_state.status_state.err_message_backtrace = profile.err_message_backtrace.clone();
        app_state.profile_state.insert_profile(profile);
        assert(app_state@ =~= spec_fail_profile_selection(s0, profile@));
    }
}

} // verus!
