//! The state store: the single owner of the canonical [`AppState`].
//!
//! The store applies actions strictly one at a time.  Synchronous actions
//! complete inside [`StateManager::begin_action`].  An I/O-bound action
//! raises `action_pending`, hands a [`RemoteCall`] to the surrounding loop
//! and suspends; the loop performs the call and feeds the outcome back
//! through [`StateManager::resume`], possibly receiving the next call of
//! the same action.  No other action is processed while one is in flight —
//! this is the system's sole backpressure mechanism.
//!
//! Every step is specified against a functional model over views
//! ([`spec_begin_action`], [`spec_resume`]), which the store runner builds
//! on to state the delivery and ordering guarantees.

use vstd::prelude::*;
use vstd::pervasive::unreached;

use crate::action_handler::{
    spec_initiate_action_pending, spec_release_action_pending, ActionHandler,
};
use crate::actions::{
    Action, ActionView, CloudWatchLogsAction, ProfileAction, RegionAction, ServiceAction,
};
use crate::app_config::AppConfig;
use crate::appstate::{
    name_entries_map, spec_initial_state, AppState, AppStateView, MeasureState, ProfileNameEntry,
    ProfileSource, ProfileView, ProfilesStateView, Session, SessionView, StatusStateView,
    ToolbarStateView,
};
use crate::cloud_watch_logs_action_handler::{spec_apply_log_groups, CloudWatchLogsActionHandler};
use crate::profile_action_handler::{
    spec_activate_profile, spec_fail_profile_selection, spec_failed_profile,
    spec_resolved_profile, ProfileActionHandler,
};
use crate::region_action_handler::{spec_select_region, RegionActionHandler};
use crate::remote::{
    AwsCallerIdentity, AwsCallerIdentityView, RemoteCall, RemoteCallView, RemoteError,
    RemoteErrorView, RemoteResult, RemoteResultView,
};
use crate::service_action_handler::{spec_select_service, ServiceActionHandler};

verus! {

/// The continuation of the one in-flight asynchronous action.
pub enum PendingWork {
    /// Waiting for the session of a profile being resolved.
    ResolvingSession { profile_name: String, source: ProfileSource },
    /// Waiting for the identity check of a resolved session.
    FetchingIdentity { profile_name: String, source: ProfileSource, session: Session },
    /// Waiting for the region list of an identity-checked session.
    ListingRegions {
        profile_name: String,
        source: ProfileSource,
        session: Session,
        identity: AwsCallerIdentity,
    },
    /// Waiting for the log-group listing.
    FetchingLogGroups,
}

/// Mathematical abstraction of [`PendingWork`].
pub enum PendingWorkView {
    ResolvingSession { profile_name: Seq<char>, source: ProfileSource },
    FetchingIdentity { profile_name: Seq<char>, source: ProfileSource, session: SessionView },
    ListingRegions {
        profile_name: Seq<char>,
        source: ProfileSource,
        session: SessionView,
        identity: AwsCallerIdentityView,
    },
    FetchingLogGroups,
}

impl View for PendingWork {
    type V = PendingWorkView;

    open spec fn view(&self) -> PendingWorkView {
        match self {
            PendingWork::ResolvingSession { profile_name, source } => {
                PendingWorkView::ResolvingSession { profile_name: profile_name@, source: *source }
            },
            PendingWork::FetchingIdentity { profile_name, source, session } => {
                PendingWorkView::FetchingIdentity {
                    profile_name: profile_name@,
                    source: *source,
                    session: session@,
                }
            },
            PendingWork::ListingRegions { profile_name, source, session, identity } => {
                PendingWorkView::ListingRegions {
                    profile_name: profile_name@,
                    source: *source,
                    session: session@,
                    identity: identity@,
                }
            },
            PendingWork::FetchingLogGroups => PendingWorkView::FetchingLogGroups,
        }
    }
}

/// The state store: the canonical aggregate plus the continuation of the
/// one action that may be in flight.
pub struct StateManager {
    pub state: AppState,
    pub pending: Option<PendingWork>,
}

/// Mathematical abstraction of [`StateManager`].
#[verifier::ext_equal]
pub struct StoreView {
    pub state: AppStateView,
    pub pending: Option<PendingWorkView>,
}

impl View for StateManager {
    type V = StoreView;

    open spec fn view(&self) -> StoreView {
        StoreView {
            state: self.state@,
            pending: match &self.pending {
                Some(p) => Some(p@),
                None => None,
            },
        }
    }
}

/// Store well-formedness at the view level: the state invariants hold and
/// `action_pending` is raised exactly while an action is in flight.
pub open spec fn store_wf(v: StoreView) -> bool {
    &&& crate::appstate::view_wf(v.state)
    &&& (v.pending is Some <==> v.state.status_state.action_pending)
}

impl StateManager {
    /// Full well-formedness of the store.
    pub open spec fn wf(&self) -> bool {
        &&& self.state.profile_state.wf()
        &&& store_wf(self@)
    }

    /// Whether an asynchronous action is in flight.
    pub open spec fn in_flight(&self) -> bool {
        self.pending is Some
    }
}

/// Whether a remote outcome answers the call the in-flight action waits
/// for.
pub open spec fn spec_result_matches(p: PendingWorkView, r: RemoteResultView) -> bool {
    match p {
        PendingWorkView::ResolvingSession { .. } => r is Session,
        PendingWorkView::FetchingIdentity { .. } => r is Identity,
        PendingWorkView::ListingRegions { .. } => r is Regions,
        PendingWorkView::FetchingLogGroups => r is LogGroups,
    }
}

/// The view of an optional remote call.
pub open spec fn opt_call_view(r: Option<RemoteCall>) -> Option<RemoteCallView> {
    match r {
        Some(c) => Some(c@),
        None => None,
    }
}

/// Beginning `SelectProfile`.  Reselecting the already-active, healthy
/// profile changes nothing and issues no call.  A healthy cached profile is
/// reused verbatim — no re-authentication.  Otherwise the pending flag goes
/// up and the session resolution starts.
pub open spec fn spec_begin_select_profile(
    v: StoreView,
    name: Seq<char>,
    source: ProfileSource,
) -> (StoreView, Option<RemoteCallView>) {
    let s = v.state;
    if s.active_profile is Some && s.active_profile.unwrap().name == name
        && s.active_profile.unwrap().is_healthy() {
        (v, None)
    } else if s.profile_state.profiles.contains_key(name)
        && s.profile_state.profiles[name].is_healthy() {
        let cached = s.profile_state.profiles[name];
        let removed = AppStateView {
            profile_state: ProfilesStateView {
                profiles: s.profile_state.profiles.remove(name),
                ..s.profile_state
            },
            ..s
        };
        (StoreView { state: spec_activate_profile(removed, cached), ..v }, None)
    } else {
        (
            StoreView {
                state: spec_initiate_action_pending(s),
                pending: Some(PendingWorkView::ResolvingSession { profile_name: name, source }),
            },
            Some(RemoteCallView::CreateAwsConfig { profile_name: name, source }),
        )
    }
}

/// Beginning `GetLogGroups`: a no-op without an active profile, otherwise
/// the pending flag goes up and the listing starts on the active profile's
/// session.
pub open spec fn spec_begin_get_log_groups(v: StoreView, token: Option<Seq<char>>) -> (
    StoreView,
    Option<RemoteCallView>,
) {
    match v.state.active_profile {
        None => (v, None),
        Some(p) => (
            StoreView {
                state: spec_initiate_action_pending(v.state),
                pending: Some(PendingWorkView::FetchingLogGroups),
            },
            Some(
                RemoteCallView::DescribeLogGroups {
                    session: p.session.unwrap(),
                    next_token: token,
                },
            ),
        ),
    }
}

/// One action starts: the synchronous ones complete here in one step, the
/// I/O-bound ones raise the pending flag and return their first remote
/// call.
pub open spec fn spec_begin_action(v: StoreView, a: ActionView) -> (
    StoreView,
    Option<RemoteCallView>,
) {
    match a {
        ActionView::SetFocus { component_type } => (
            StoreView { state: AppStateView { focus_component: component_type, ..v.state }, ..v },
            None,
        ),
        ActionView::SetBreadcrumbs { breadcrumbs } => (
            StoreView {
                state: AppStateView {
                    status_state: StatusStateView { breadcrumbs, ..v.state.status_state },
                    ..v.state
                },
                ..v
            },
            None,
        ),
        ActionView::SetMenu { menu_items } => (
            StoreView {
                state: AppStateView {
                    toolbar_state: ToolbarStateView { menu_items, ..v.state.toolbar_state },
                    ..v.state
                },
                ..v
            },
            None,
        ),
        ActionView::SetTerminalArea { area } => (
            StoreView { state: AppStateView { terminal_area: area, ..v.state }, ..v },
            None,
        ),
        ActionView::ToggleSidePane => (
            StoreView { state: AppStateView { is_expanded: !v.state.is_expanded, ..v.state }, ..v },
            None,
        ),
        ActionView::RenderDuration { duration } => (
            StoreView {
                state: AppStateView {
                    measure_state: MeasureState {
                        render_duration: duration,
                        ..v.state.measure_state
                    },
                    ..v.state
                },
                ..v
            },
            None,
        ),
        ActionView::SelectProfile { name, source } => spec_begin_select_profile(v, name, source),
        ActionView::SelectRegion { region_name } => (
            StoreView { state: spec_select_region(v.state, region_name), ..v },
            None,
        ),
        ActionView::SelectService { service } => (
            StoreView { state: spec_select_service(v.state, service), ..v },
            None,
        ),
        ActionView::GetLogGroups { token } => spec_begin_get_log_groups(v, token),
    }
}

/// A failed profile selection wound up: the failed profile is cached, the
/// error surfaces, the pending flag drops.
pub open spec fn spec_finish_profile_failure(
    v: StoreView,
    name: Seq<char>,
    source: ProfileSource,
    session: Option<SessionView>,
    e: RemoteErrorView,
) -> StoreView {
    StoreView {
        state: spec_release_action_pending(
            spec_fail_profile_selection(v.state, spec_failed_profile(name, source, session, e)),
        ),
        pending: None,
    }
}

/// One remote outcome arrives for the in-flight action: either the next
/// call of the same action is issued, or the action's handling completes
/// and the pending flag drops.  Meaningful when the outcome answers the
/// expected call; with no action in flight nothing changes.
pub open spec fn spec_resume(v: StoreView, r: RemoteResultView) -> (
    StoreView,
    Option<RemoteCallView>,
) {
    match v.pending {
        None => (v, None),
        Some(pending) => match pending {
            PendingWorkView::ResolvingSession { profile_name, source } => match r {
                RemoteResultView::Session(Ok(session)) => (
                    StoreView {
                        state: v.state,
                        pending: Some(
                            PendingWorkView::FetchingIdentity { profile_name, source, session },
                        ),
                    },
                    Some(RemoteCallView::FetchCallerIdentity { session }),
                ),
                RemoteResultView::Session(Err(e)) => (
                    spec_finish_profile_failure(v, profile_name, source, None, e),
                    None,
                ),
                _ => (v, None),
            },
            PendingWorkView::FetchingIdentity { profile_name, source, session } => match r {
                RemoteResultView::Identity(Ok(identity)) => (
                    StoreView {
                        state: v.state,
                        pending: Some(
                            PendingWorkView::ListingRegions {
                                profile_name,
                                source,
                                session,
                                identity,
                            },
                        ),
                    },
                    Some(RemoteCallView::DescribeRegions { session }),
                ),
                RemoteResultView::Identity(Err(e)) => (
                    spec_finish_profile_failure(v, profile_name, source, Some(session), e),
                    None,
                ),
                _ => (v, None),
            },
            PendingWorkView::ListingRegions { profile_name, source, session, identity } => match r {
                RemoteResultView::Regions(Ok(regions)) => (
                    StoreView {
                        state: spec_release_action_pending(
                            spec_activate_profile(
                                v.state,
                                spec_resolved_profile(profile_name, source, session, identity, regions),
                            ),
                        ),
                        pending: None,
                    },
                    None,
                ),
                RemoteResultView::Regions(Err(e)) => (
                    spec_finish_profile_failure(v, profile_name, source, Some(session), e),
                    None,
                ),
                _ => (v, None),
            },
            PendingWorkView::FetchingLogGroups => match r {
                RemoteResultView::LogGroups(res) => (
                    StoreView {
                        state: spec_release_action_pending(spec_apply_log_groups(v.state, res)),
                        pending: None,
                    },
                    None,
                ),
                _ => (v, None),
            },
        },
    }
}

impl StateManager {
    /// A fresh store owning the initial aggregate, with nothing in flight.
    pub fn new(app_config: &AppConfig, profile_names: Vec<ProfileNameEntry>) -> (r: StateManager)
        requires
            crate::appstate::unique_entry_names(profile_names@),
        ensures
            r.wf(),
            !r.in_flight(),
            r@.state == spec_initial_state(app_config@, name_entries_map(profile_names@)),
    {
        StateManager { state: AppState::new(app_config, profile_names), pending: None }
    }

    /// Start handling one action.  Requires that no action is in flight:
    /// actions are processed strictly one at a time.
    pub fn begin_action(&mut self, action: Action) -> (r: Option<RemoteCall>)
        requires
            old(self).wf(),
            !old(self).in_flight(),
        ensures
            final(self).wf(),
            final(self)@ == spec_begin_action(old(self)@, action@).0,
            opt_call_view(r) == spec_begin_action(old(self)@, action@).1,
            r is Some <==> final(self).in_flight(),
    {
        let ghost v0 = self@;
        let ghost a0 = action@;
        match action {
            Action::SetFocus { component_type } => {
                self.state.focus_component = component_type;
                assert(self@ =~= spec_begin_action(v0, a0).0);
                None
            },
            Action::SetBreadcrumbs { breadcrumbs } => {
                self.state.status_state.breadcrumbs = breadcrumbs;
                assert(self@ =~= spec_begin_action(v0, a0).0);
                None
            },
            Action::SetMenu { menu_items } => {
                self.state.toolbar_state.menu_items = menu_items;
                assert(self@ =~= spec_begin_action(v0, a0).0);
                None
            },
            Action::SetTerminalArea { area } => {
                self.state.terminal_area = area;
                assert(self@ =~= spec_begin_action(v0, a0).0);
                None
            },
            Action::ToggleSidePane => {
                self.state.is_expanded = !self.state.is_expanded;
                assert(self@ =~= spec_begin_action(v0, a0).0);
                None
            },
            Action::RenderDuration { duration } => {
                self.state.measure_state.render_duration = duration;
                assert(self@ =~= spec_begin_action(v0, a0).0);
                None
            },
            Action::Region { action } => {
                RegionActionHandler::handle(action, &mut self.state);
                assert(self@ =~= spec_begin_action(v0, a0).0);
                None
            },
            Action::Service { action } => {
                ServiceActionHandler::handle(action, &mut self.state);
                assert(self@ =~= spec_begin_action(v0, a0).0);
                None
            },
            Action::Profile { action } => {
                let r = self.begin_select_profile(action);
                proof {
                    assert(self@ =~= spec_begin_action(v0, a0).0);
                }
                r
            },
            Action::CloudWatchLogs { action } => {
                let r = self.begin_get_log_groups(action);
                proof {
                    assert(self@ =~= spec_begin_action(v0, a0).0);
                }
                r
            },
        }
    }

    /// Begin `SelectProfile` (see [`spec_begin_select_profile`]).
    fn begin_select_profile(&mut self, action: ProfileAction) -> (r: Option<RemoteCall>)
        requires
            old(self).wf(),
            !old(self).in_flight(),
        ensures
            final(self).wf(),
            match action {
                ProfileAction::SelectProfile { profile } => {
                    &&& final(self)@ == spec_begin_select_profile(
                        old(self)@,
                        profile.0@,
                        profile.1,
                    ).0
                    &&& opt_call_view(r) == spec_begin_select_profile(
                        old(self)@,
                        profile.0@,
                        profile.1,
                    ).1
                },
            },
            r is Some <==> final(self).in_flight(),
    {
        let ghost v0 = self@;
        let ProfileAction::SelectProfile { profile } = action;
        let (profile_name, source) = profile;
        let ghost name0 = profile_name@;
        let active_hit = match &self.state.active_profile {
            Some(active) => active.name == profile_name
                && active.err_message.as_str().is_empty(),
            None => false,
        };
        if active_hit {
            return None;
        }
        if self.state.profile_state.has_healthy_profile(&profile_name) {
            let cached = self.state.profile_state.remove_profile(&profile_name);
            match cached {
                Some(p) => {
                    proof {
                        assert(v0.state.profile_state.profiles[name0].session is Some);
                    }
                    ProfileActionHandler::activate_profile(&mut self.state, p);
                    assert(self@ =~= spec_begin_select_profile(v0, name0, source).0);
                },
                None => {
                    unreached::<()>();
                },
            }
            return None;
        }
        ActionHandler::initiate_action_pending(&mut self.state);
        self.pending = Some(
            PendingWork::ResolvingSession { profile_name: profile_name.clone(), source },
        );
        assert(self@ =~= spec_begin_select_profile(v0, name0, source).0);
        Some(RemoteCall::CreateAwsConfig { profile_name, source })
    }

    /// Begin `GetLogGroups` (see [`spec_begin_get_log_groups`]).
    fn begin_get_log_groups(&mut self, action: CloudWatchLogsAction) -> (r: Option<RemoteCall>)
        requires
            old(self).wf(),
            !old(self).in_flight(),
        ensures
            final(self).wf(),
            match action {
                CloudWatchLogsAction::GetLogGroups { token } => {
                    &&& final(self)@ == spec_begin_get_log_groups(old(self)@, token.deep_view()).0
                    &&& opt_call_view(r) == spec_begin_get_log_groups(
                        old(self)@,
                        token.deep_view(),
                    ).1
                },
            },
            r is Some <==> final(self).in_flight(),
    {
        let ghost v0 = self@;
        let CloudWatchLogsAction::GetLogGroups { token } = action;
        let ghost token0 = token.deep_view();
        let session = match &self.state.active_profile {
            None => {
                assert(self@ =~= spec_begin_get_log_groups(v0, token0).0);
                return None;
            },
            Some(profile) => match &profile.session {
                Some(s) => s.duplicate(),
                None => unreached(),
            },
        };
        ActionHandler::initiate_action_pending(&mut self.state);
        self.pending = Some(PendingWork::FetchingLogGroups);
        assert(self@ =~= spec_begin_get_log_groups(v0, token0).0);
        Some(RemoteCall::DescribeLogGroups { session, next_token: token })
    }

    /// Whether a remote outcome answers the call the in-flight action is
    /// waiting for.
    pub fn result_matches(&self, result: &RemoteResult) -> (b: bool)
        requires
            self.in_flight(),
        ensures
            b == spec_result_matches(self@.pending.unwrap(), result@),
    {
        match (&self.pending, result) {
            (Some(PendingWork::ResolvingSession { .. }), RemoteResult::Session(_)) => true,
            (Some(PendingWork::FetchingIdentity { .. }), RemoteResult::Identity(_)) => true,
            (Some(PendingWork::ListingRegions { .. }), RemoteResult::Regions(_)) => true,
            (Some(PendingWork::FetchingLogGroups), RemoteResult::LogGroups(_)) => true,
            _ => false,
        }
    }

    /// Feed the outcome of the requested remote call back into the store.
    pub fn resume(&mut self, result: RemoteResult) -> (r: Option<RemoteCall>)
        requires
            old(self).wf(),
            old(self).in_flight(),
            spec_result_matches(old(self)@.pending.unwrap(), result@),
        ensures
            final(self).wf(),
            final(self)@ == spec_resume(old(self)@, result@).0,
            opt_call_view(r) == spec_resume(old(self)@, result@).1,
            r is Some <==> final(self).in_flight(),
    {
        let ghost v0 = self@;
        let ghost r0 = result@;
        let pending = match self.pending.take() {
            Some(p) => p,
            None => unreached(),
        };
        match pending {
            PendingWork::ResolvingSession { profile_name, source } => match result {
                RemoteResult::Session(Ok(session)) => {
                    let call_session = session.duplicate();
                    self.pending = Some(
                        PendingWork::FetchingIdentity { profile_name, source, session },
                    );
                    assert(self@ =~= spec_resume(v0, r0).0);
                    Some(RemoteCall::FetchCallerIdentity { session: call_session })
                },
                RemoteResult::Session(Err(e)) => {
                    let failed = ProfileActionHandler::failed_profile(
                        profile_name,
                        source,
                        None,
                        &e,
                    );
                    ProfileActionHandler::fail_profile_selection(&mut self.state, failed);
                    ActionHandler::release_action_pending(&mut self.state);
                    assert(self@ =~= spec_resume(v0, r0).0);
                    None
                },
                _ => unreached(),
            },
            PendingWork::FetchingIdentity { profile_name, source, session } => match result {
                RemoteResult::Identity(Ok(identity)) => {
                    let call_session = session.duplicate();
                    self.pending = Some(
                        PendingWork::ListingRegions { profile_name, source, session, identity },
                    );
                    assert(self@ =~= spec_resume(v0, r0).0);
                    Some(RemoteCall::DescribeRegions { session: call_session })
                },
                RemoteResult::Identity(Err(e)) => {
                    let failed = ProfileActionHandler::failed_profile(
                        profile_name,
                        source,
                        Some(session),
                        &e,
                    );
                    ProfileActionHandler::fail_profile_selection(&mut self.state, failed);
                    ActionHandler::release_action_pending(&mut self.state);
                    assert(self@ =~= spec_resume(v0, r0).0);
                    None
                },
                _ => unreached(),
            },
            PendingWork::ListingRegions { profile_name, source, session, identity } => {
                match result {
                    RemoteResult::Regions(Ok(regions)) => {
                        let resolved = ProfileActionHandler::resolved_profile(
                            profile_name,
                            source,
                            session,
                            identity,
                            regions,
                        );
                        ProfileActionHandler::activate_profile(&mut self.state, resolved);
                        ActionHandler::release_action_pending(&mut self.state);
                        assert(self@ =~= spec_resume(v0, r0).0);
                        None
                    },
                    RemoteResult::Regions(Err(e)) => {
                        let failed = ProfileActionHandler::failed_profile(
                            profile_name,
                            source,
                            Some(session),
                            &e,
                        );
                        ProfileActionHandler::fail_profile_selection(&mut self.state, failed);
                        ActionHandler::release_action_pending(&mut self.state);
                        assert(self@ =~= spec_resume(v0, r0).0);
                        None
                    },
                    _ => unreached(),
                }
            },
            PendingWork::FetchingLogGroups => match result {
                RemoteResult::LogGroups(res) => {
                    CloudWatchLogsActionHandler::apply_log_groups(&mut self.state, res);
                    ActionHandler::release_action_pending(&mut self.state);
                    assert(self@ =~= spec_resume(v0, r0).0);
                    None
                },
                _ => unreached(),
            },
        }
    }

    /// Refresh the sampled machine metrics shown in the toolbar.  Ticks
    /// may interleave between actions but never within one action's
    /// handling.
    pub fn apply_metrics_tick(&mut self, cpu_usage: String, memory_usage: String)
        requires
            old(self).wf(),
            !old(self).in_flight(),
        ensures
            final(self).wf(),
            !final(self).in_flight(),
            final(self)@ == (StoreView {
                state: AppStateView {
                    toolbar_state: ToolbarStateView {
                        cpu_usage: cpu_usage@,
                        memory_usage: memory_usage@,
                        ..old(self)@.state.toolbar_state
                    },
                    ..old(self)@.state
                },
                ..old(self)@
            }),
    {
        let ghost v0 = self@;
        let ghost c0 = cpu_usage@;
        let ghost m0 = memory_usage@;
        self.state.toolbar_state.cpu_usage = cpu_usage;
        self.state.toolbar_state.memory_usage = memory_usage;
        assert(self@ =~= (StoreView {
            state: AppStateView {
                toolbar_state: ToolbarStateView { cpu_usage: c0, memory_usage: m0, ..v0.state.toolbar_state },
                ..v0.state
            },
            ..v0
        }));
    }

    /// Record how long the last action's handling took.
    pub fn record_action_duration(&mut self, millis: u64)
        requires
            old(self).wf(),
        ensures
            final(self).wf(),
            final(self)@ == (StoreView {
                state: AppStateView {
                    measure_state: MeasureState {
                        action_duration: millis,
                        ..old(self)@.state.measure_state
                    },
                    ..old(self)@.state
                },
                ..old(self)@
            }),
            final(self).in_flight() == old(self).in_flight(),
    {
        let ghost v0 = self@;
        self.state.measure_state.action_duration = millis;
        assert(self@ =~= (StoreView {
            state: AppStateView {
                measure_state: MeasureState { action_duration: millis, ..v0.state.measure_state },
                ..v0.state
            },
            ..v0
        }));
    }
}

/// A cached, healthy profile is reused verbatim when its name is
/// reselected: no remote call is issued and the cached value itself
/// becomes active, unchanged.
pub proof fn lemma_cached_profile_reused_verbatim(
    v: StoreView,
    name: Seq<char>,
    source: ProfileSource,
)
    requires
        match v.state.active_profile {
            Some(p) => p.name != name,
            None => true,
        },
        v.state.profile_state.profiles.contains_key(name),
        v.state.profile_state.profiles[name].is_healthy(),
    ensures
        ({
            let (v2, call) = spec_begin_action(v, ActionView::SelectProfile { name, source });
            &&& call is None
            &&& v2.state.active_profile == Some(v.state.profile_state.profiles[name])
            &&& v2.pending == v.pending
        }),
{
}

/// Reselecting the already-active, healthy profile issues no remote call
/// and changes nothing: selection is idempotent for the active profile.
pub proof fn lemma_select_active_profile_idempotent(
    v: StoreView,
    name: Seq<char>,
    source: ProfileSource,
)
    requires
        v.state.active_profile is Some,
        v.state.active_profile.unwrap().name == name,
        v.state.active_profile.unwrap().is_healthy(),
    ensures
        spec_begin_action(v, ActionView::SelectProfile { name, source })
            == (v, None::<RemoteCallView>),
{
}

} // verus!
