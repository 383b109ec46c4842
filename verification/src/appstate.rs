//! The canonical application-state aggregate and its mathematical model.
//!
//! Exactly one [`AppState`] value is canonical for the whole process.  It is
//! mutated only by the state store, one action at a time, and every reader
//! observes a fully-formed snapshot.  Each data type comes with a view — a
//! ghost abstraction over `Seq` and `Map` — over which all contracts of the
//! handlers and of the store are stated.

use vstd::prelude::*;

use crate::app_config::{AWSConfig, AWSConfigView, AppConfig};
use crate::cloud_watch_logs_state::{empty_cloud_watch_state, CloudWatchState, CloudWatchStateView};

verus! {

/// Which UI region currently receives keyboard input.
#[derive(Clone, Copy, Debug, PartialEq, Eq, Structural)]
pub enum ComponentType {
    Home,
    Profiles,
    Regions,
    Services,
    Status,
    AWSService,
}

/// Where a discoverable profile name came from.
#[derive(Clone, Copy, Debug, PartialEq, Eq, Structural)]
pub enum ProfileSource {
    Environment,
    CredentialsFile,
    ConfigFile,
}

/// The finite set of supported services, plus the "nothing selected" case.
#[derive(Clone, Copy, Debug, PartialEq, Eq, Structural)]
pub enum AWSService {
    NoService,
    CloudWatchLogs,
    Eks,
    DynamoDB,
    S3,
    ServiceCatalog,
}

/// A rectangle of terminal cells.
#[derive(Clone, Copy, Debug, PartialEq, Eq, Structural)]
pub struct Rect {
    pub x: u16,
    pub y: u16,
    pub width: u16,
    pub height: u16,
}

/// An opaque, resolved credential+endpoint bundle used for remote calls.
///
/// The core never looks inside a session; it only threads the handle through
/// to later remote calls.  The one piece the core reads — the session's
/// default region — is carried beside the handle as a plain value.
pub struct Session {
    pub id: u64,
    pub region: Option<String>,
}

/// Mathematical abstraction of [`Session`].
#[verifier::ext_equal]
pub struct SessionView {
    pub id: u64,
    pub region: Option<Seq<char>>,
}

impl View for Session {
    type V = SessionView;

    open spec fn view(&self) -> SessionView {
        SessionView { id: self.id, region: self.region.deep_view() }
    }
}

impl Session {
    /// A structurally equal copy of this session handle.
    pub fn duplicate(&self) -> (r: Session)
        ensures
            r@ == self@,
    {
        let region = match &self.region {
            Some(s) => Some(s.clone()),
            None => None,
        };
        let r = Session { id: self.id, region };
        assert(r@ =~= self@);
        r
    }
}

/// A named, resolved session context for one cloud account and identity.
///
/// A healthy profile has an empty `err_message`; a profile whose resolution
/// failed carries empty account/user/regions plus a short user message and a
/// verbose backtrace string.
pub struct Profile {
    pub name: String,
    pub source: ProfileSource,
    pub session: Option<Session>,
    pub account: String,
    pub user: String,
    pub err_message: String,
    pub err_message_backtrace: String,
    pub regions: Vec<String>,
    pub selected_region: Option<String>,
    pub selected_service: AWSService,
}

/// Mathematical abstraction of [`Profile`].
#[verifier::ext_equal]
pub struct ProfileView {
    pub name: Seq<char>,
    pub source: ProfileSource,
    pub session: Option<SessionView>,
    pub account: Seq<char>,
    pub user: Seq<char>,
    pub err_message: Seq<char>,
    pub err_message_backtrace: Seq<char>,
    pub regions: Seq<Seq<char>>,
    pub selected_region: Option<Seq<char>>,
    pub selected_service: AWSService,
}

impl View for Profile {
    type V = ProfileView;

    open spec fn view(&self) -> ProfileView {
        ProfileView {
            name: self.name@,
            source: self.source,
            session: match self.session {
                Some(s) => Some(s@),
                None => None,
            },
            account: self.account@,
            user: self.user@,
            err_message: self.err_message@,
            err_message_backtrace: self.err_message_backtrace@,
            regions: self.regions.deep_view(),
            selected_region: self.selected_region.deep_view(),
            selected_service: self.selected_service,
        }
    }
}

impl ProfileView {
    /// A profile is healthy exactly when its error message is empty.
    pub open spec fn is_healthy(self) -> bool {
        self.err_message.len() == 0
    }
}

impl Profile {
    /// A structurally equal copy of this profile.
    pub fn duplicate(&self) -> (r: Profile)
        ensures
            r@ == self@,
    {
        let session = match &self.session {
            Some(s) => Some(s.duplicate()),
            None => None,
        };
        let r = Profile {
            name: self.name.clone(),
            source: self.source,
            session,
            account: self.account.clone(),
            user: self.user.clone(),
            err_message: self.err_message.clone(),
            err_message_backtrace: self.err_message_backtrace.clone(),
            regions: crate::app_config::clone_string_vec(&self.regions),
            selected_region: crate::cloud_watch_logs_state::clone_opt_string(
                &self.selected_region,
            ),
            selected_service: self.selected_service,
        };
        assert(r@ =~= self@);
        r
    }
}

/// One entry of the directory of discoverable profile names.
pub struct ProfileNameEntry {
    pub name: String,
    pub source: ProfileSource,
}

/// The directory of discoverable profile names and the cache of previously
/// resolved profiles.
///
/// Both collections are keyed by profile name; well-formedness
/// ([`ProfilesState::wf`]) says the keys are unique, so each abstracts to a
/// `Map`.
pub struct ProfilesState {
    pub profile_names: Vec<ProfileNameEntry>,
    pub profiles: Vec<Profile>,
}

/// The map abstraction of the name directory: later entries win.
pub open spec fn name_entries_map(s: Seq<ProfileNameEntry>) -> Map<Seq<char>, ProfileSource>
    decreases s.len(),
{
    if s.len() == 0 {
        Map::empty()
    } else {
        name_entries_map(s.drop_last()).insert(s.last().name@, s.last().source)
    }
}

/// The map abstraction of the resolved-profile cache: later entries win.
pub open spec fn profiles_map(s: Seq<Profile>) -> Map<Seq<char>, ProfileView>
    decreases s.len(),
{
    if s.len() == 0 {
        Map::empty()
    } else {
        profiles_map(s.drop_last()).insert(s.last().name@, s.last()@)
    }
}

/// No two entries of the directory share a name.
pub open spec fn unique_entry_names(s: Seq<ProfileNameEntry>) -> bool {
    forall|i: int, j: int| 0 <= i < j < s.len() ==> s[i].name@ != s[j].name@
}

/// No two cached profiles share a name.
pub open spec fn unique_profile_names(s: Seq<Profile>) -> bool {
    forall|i: int, j: int| 0 <= i < j < s.len() ==> s[i].name@ != s[j].name@
}

/// Mathematical abstraction of [`ProfilesState`].
#[verifier::ext_equal]
pub struct ProfilesStateView {
    pub profile_names: Map<Seq<char>, ProfileSource>,
    pub profiles: Map<Seq<char>, ProfileView>,
}

impl View for ProfilesState {
    type V = ProfilesStateView;

    open spec fn view(&self) -> ProfilesStateView {
        ProfilesStateView {
            profile_names: name_entries_map(self.profile_names@),
            profiles: profiles_map(self.profiles@),
        }
    }
}

impl ProfilesState {
    /// Both collections are keyed by unique names.
    pub open spec fn wf(&self) -> bool {
        unique_entry_names(self.profile_names@) && unique_profile_names(self.profiles@)
    }
}

/// Region names offered as a static filter (read-only to the handlers).
pub struct RegionsState {
    pub region_names: Vec<String>,
}

/// Mathematical abstraction of [`RegionsState`].
#[verifier::ext_equal]
pub struct RegionsStateView {
    pub region_names: Seq<Seq<char>>,
}

impl View for RegionsState {
    type V = RegionsStateView;

    open spec fn view(&self) -> RegionsStateView {
        RegionsStateView { region_names: self.region_names.deep_view() }
    }
}

/// One entry of the toolbar menu.
pub struct MenuItem {
    pub command: String,
    pub title: String,
    pub color_index: usize,
}

/// Mathematical abstraction of [`MenuItem`].
#[verifier::ext_equal]
pub struct MenuItemView {
    pub command: Seq<char>,
    pub title: Seq<char>,
    pub color_index: usize,
}

impl View for MenuItem {
    type V = MenuItemView;

    open spec fn view(&self) -> MenuItemView {
        MenuItemView { command: self.command@, title: self.title@, color_index: self.color_index }
    }
}

impl DeepView for MenuItem {
    type V = MenuItemView;

    open spec fn deep_view(&self) -> MenuItemView {
        self.view()
    }
}

impl From<crate::ui_config::MenuItemText> for MenuItem {
    /// A menu entry built from its fixed text.
    fn from(val: crate::ui_config::MenuItemText) -> (r: MenuItem)
        ensures
            r@.command == val.command@,
            r@.title == val.title@,
            r@.color_index == val.color_index,
    {
        MenuItem {
            command: val.command.to_owned(),
            title: val.title.to_owned(),
            color_index: val.color_index,
        }
    }
}

impl vstd::std_specs::convert::FromSpecImpl<crate::ui_config::MenuItemText> for MenuItem {
    open spec fn obeys_from_spec() -> bool {
        false
    }

    open spec fn from_spec(t: crate::ui_config::MenuItemText) -> MenuItem {
        vstd::pervasive::arbitrary()
    }
}

impl MenuItem {
    /// A structurally equal copy of this menu entry.
    pub fn duplicate(&self) -> (r: MenuItem)
        ensures
            r@ == self@,
    {
        MenuItem {
            command: self.command.clone(),
            title: self.title.clone(),
            color_index: self.color_index,
        }
    }
}

/// The toolbar fields mirrored from the active profile plus the sampled
/// machine metrics and the three menu columns.
pub struct ToolbarState {
    pub profile_name: String,
    pub account: String,
    pub user: String,
    pub cpu_usage: String,
    pub memory_usage: String,
    pub menu_items: [Vec<MenuItem>; 3],
}

/// Mathematical abstraction of [`ToolbarState`].
#[verifier::ext_equal]
pub struct ToolbarStateView {
    pub profile_name: Seq<char>,
    pub account: Seq<char>,
    pub user: Seq<char>,
    pub cpu_usage: Seq<char>,
    pub memory_usage: Seq<char>,
    pub menu_items: Seq<Seq<MenuItemView>>,
}

impl View for ToolbarState {
    type V = ToolbarStateView;

    open spec fn view(&self) -> ToolbarStateView {
        ToolbarStateView {
            profile_name: self.profile_name@,
            account: self.account@,
            user: self.user@,
            cpu_usage: self.cpu_usage@,
            memory_usage: self.memory_usage@,
            menu_items: self.menu_items.deep_view(),
        }
    }
}

/// A structurally equal copy of one menu column.
pub fn clone_menu_column(v: &Vec<MenuItem>) -> (r: Vec<MenuItem>)
    ensures
        r.deep_view() == v.deep_view(),
{
    let mut r: Vec<MenuItem> = Vec::new();
    let mut i: usize = 0;
    while i < v.len()
        invariant
            i <= v.len(),
            r@.len() == i,
            forall|j: int| 0 <= j < i ==> (#[trigger] r@[j])@ == v@[j]@,
        decreases v.len() - i,
    {
        r.push(v[i].duplicate());
        i = i + 1;
    }
    assert forall|j: int| 0 <= j < r.deep_view().len() implies r.deep_view()[j]
        == v.deep_view()[j] by {
        assert(r.deep_view()[j] == r@[j]@);
        assert(v.deep_view()[j] == v@[j]@);
    }
    assert(r.deep_view() =~= v.deep_view());
    r
}

impl ToolbarState {
    /// A structurally equal copy of the toolbar.
    pub fn duplicate(&self) -> (r: ToolbarState)
        ensures
            r@ == self@,
    {
        let menu_items = [
            clone_menu_column(&self.menu_items[0]),
            clone_menu_column(&self.menu_items[1]),
            clone_menu_column(&self.menu_items[2]),
        ];
        let r = ToolbarState {
            profile_name: self.profile_name.clone(),
            account: self.account.clone(),
            user: self.user.clone(),
            cpu_usage: self.cpu_usage.clone(),
            memory_usage: self.memory_usage.clone(),
            menu_items,
        };
        assert(r.menu_items.deep_view() =~= self.menu_items.deep_view());
        assert(r@ =~= self@);
        r
    }
}

/// The status line: the pending flag, a message, the error fields behind the
/// details key-chord, and the breadcrumbs.
pub struct StatusState {
    pub action_pending: bool,
    pub message: String,
    pub err_message: String,
    pub err_message_backtrace: String,
    pub breadcrumbs: Vec<String>,
}

/// Mathematical abstraction of [`StatusState`].
#[verifier::ext_equal]
pub struct StatusStateView {
    pub action_pending: bool,
    pub message: Seq<char>,
    pub err_message: Seq<char>,
    pub err_message_backtrace: Seq<char>,
    pub breadcrumbs: Seq<Seq<char>>,
}

impl View for StatusState {
    type V = StatusStateView;

    open spec fn view(&self) -> StatusStateView {
        StatusStateView {
            action_pending: self.action_pending,
            message: self.message@,
            err_message: self.err_message@,
            err_message_backtrace: self.err_message_backtrace@,
            breadcrumbs: self.breadcrumbs.deep_view(),
        }
    }
}

impl StatusState {
    /// A structurally equal copy of the status line.
    pub fn duplicate(&self) -> (r: StatusState)
        ensures
            r@ == self@,
    {
        let r = StatusState {
            action_pending: self.action_pending,
            message: self.message.clone(),
            err_message: self.err_message.clone(),
            err_message_backtrace: self.err_message_backtrace.clone(),
            breadcrumbs: crate::app_config::clone_string_vec(&self.breadcrumbs),
        };
        assert(r@ =~= self@);
        r
    }
}

/// Performance sampling: whether it is active, and the most recent render
/// and action durations in milliseconds.
#[derive(Clone, Copy, Debug, PartialEq, Eq, Structural)]
pub struct MeasureState {
    pub is_active: bool,
    pub render_duration: u64,
    pub action_duration: u64,
}

/// The aggregate root.  See the module documentation.
pub struct AppState {
    pub aws_config: AWSConfig,
    pub focus_component: ComponentType,
    pub is_expanded: bool,
    pub terminal_area: Rect,
    pub active_profile: Option<Profile>,
    pub profile_state: ProfilesState,
    pub region_state: RegionsState,
    pub toolbar_state: ToolbarState,
    pub status_state: StatusState,
    pub measure_state: MeasureState,
    pub cloud_watch_state: CloudWatchState,
}

/// Mathematical abstraction of [`AppState`].
#[verifier::ext_equal]
pub struct AppStateView {
    pub aws_config: AWSConfigView,
    pub focus_component: ComponentType,
    pub is_expanded: bool,
    pub terminal_area: Rect,
    pub active_profile: Option<ProfileView>,
    pub profile_state: ProfilesStateView,
    pub region_state: RegionsStateView,
    pub toolbar_state: ToolbarStateView,
    pub status_state: StatusStateView,
    pub measure_state: MeasureState,
    pub cloud_watch_state: CloudWatchStateView,
}

impl View for AppState {
    type V = AppStateView;

    open spec fn view(&self) -> AppStateView {
        AppStateView {
            aws_config: self.aws_config@,
            focus_component: self.focus_component,
            is_expanded: self.is_expanded,
            terminal_area: self.terminal_area,
            active_profile: match self.active_profile {
                Some(p) => Some(p@),
                None => None,
            },
            profile_state: self.profile_state@,
            region_state: self.region_state@,
            toolbar_state: self.toolbar_state@,
            status_state: self.status_state@,
            measure_state: self.measure_state,
            cloud_watch_state: self.cloud_watch_state@,
        }
    }
}

/// Every cache entry sits under its own name, and a healthy entry carries
/// the session it was resolved with.
pub open spec fn cache_ok(m: Map<Seq<char>, ProfileView>) -> bool {
    forall|k: Seq<char>| #[trigger]
        m.contains_key(k) ==> m[k].name == k && (m[k].is_healthy() ==> m[k].session is Some)
}

/// Well-formedness at the view level: no broken profile is active, an
/// active profile carries its session, and the cache is keyed by profile
/// names.
pub open spec fn view_wf(v: AppStateView) -> bool {
    &&& match v.active_profile {
        Some(p) => p.is_healthy() && p.session is Some,
        None => true,
    }
    &&& cache_ok(v.profile_state.profiles)
}

impl DeepView for AppState {
    type V = AppStateView;

    open spec fn deep_view(&self) -> AppStateView {
        self.view()
    }
}

impl AppState {
    /// Well-formedness: the name-keyed collections have unique keys, and
    /// the view-level invariants hold.
    pub open spec fn wf(&self) -> bool {
        &&& self.profile_state.wf()
        &&& view_wf(self@)
    }
}

/// The message shown while no profile is active yet.
pub open spec fn spec_no_profile_message() -> Seq<char> {
    "No profile active. Please select profile and press <Enter>"@
}

/// The initial aggregate, as a function of the resolved configuration and
/// the discovered profile names.
pub open spec fn spec_initial_state(
    config: crate::app_config::AppConfigView,
    profile_names: Map<Seq<char>, ProfileSource>,
) -> AppStateView {
    AppStateView {
        aws_config: config.aws,
        focus_component: ComponentType::Profiles,
        is_expanded: true,
        terminal_area: Rect { x: 0, y: 0, width: 0, height: 0 },
        active_profile: None,
        profile_state: ProfilesStateView { profile_names, profiles: Map::empty() },
        region_state: RegionsStateView { region_names: Seq::empty() },
        toolbar_state: ToolbarStateView {
            profile_name: "none"@,
            account: "none"@,
            user: "none"@,
            cpu_usage: Seq::empty(),
            memory_usage: Seq::empty(),
            menu_items: seq![
                Seq::<MenuItemView>::empty(),
                Seq::<MenuItemView>::empty(),
                Seq::<MenuItemView>::empty(),
            ],
        },
        status_state: StatusStateView {
            action_pending: false,
            message: spec_no_profile_message(),
            err_message: Seq::empty(),
            err_message_backtrace: Seq::empty(),
            breadcrumbs: Seq::empty(),
        },
        measure_state: MeasureState {
            is_active: config.performance.len() > 0,
            render_duration: 0,
            action_duration: 0,
        },
        cloud_watch_state: empty_cloud_watch_state(),
    }
}

impl AppState {
    /// The initial aggregate: profiles view focused, side pane expanded, the
    /// externally supplied configuration and discovered profile names taken
    /// over, everything else empty.
    pub fn new(app_config: &AppConfig, profile_names: Vec<ProfileNameEntry>) -> (r: AppState)
        requires
            unique_entry_names(profile_names@),
        ensures
            r.wf(),
            r@ == spec_initial_state(app_config@, name_entries_map(profile_names@)),
    {
        let is_active = !app_config.performance.as_str().is_empty();
        let r = AppState {
            aws_config: app_config.aws.duplicate(),
            focus_component: ComponentType::Profiles,
            is_expanded: true,
            terminal_area: Rect { x: 0, y: 0, width: 0, height: 0 },
            active_profile: None,
            profile_state: ProfilesState { profile_names, profiles: Vec::new() },
            region_state: RegionsState { region_names: Vec::new() },
            toolbar_state: ToolbarState {
                profile_name: "none".to_owned(),
                account: "none".to_owned(),
                user: "none".to_owned(),
                cpu_usage: String::new(),
                memory_usage: String::new(),
                menu_items: [Vec::new(), Vec::new(), Vec::new()],
            },
            status_state: StatusState {
                action_pending: false,
                message: "No profile active. Please select profile and press <Enter>".to_owned(),
                err_message: String::new(),
                err_message_backtrace: String::new(),
                breadcrumbs: Vec::new(),
            },
            measure_state: MeasureState { is_active, render_duration: 0, action_duration: 0 },
            cloud_watch_state: CloudWatchState::default(),
        };
        assert(r@.profile_state.profiles =~= Map::<Seq<char>, ProfileView>::empty());
        assert(r@.region_state.region_names =~= Seq::<Seq<char>>::empty());
        assert(r@.toolbar_state.menu_items[0] =~= Seq::<MenuItemView>::empty());
        assert(r@.toolbar_state.menu_items[1] =~= Seq::<MenuItemView>::empty());
        assert(r@.toolbar_state.menu_items[2] =~= Seq::<MenuItemView>::empty());
        assert(r@.toolbar_state.menu_items =~= seq![
            Seq::<MenuItemView>::empty(),
            Seq::<MenuItemView>::empty(),
            Seq::<MenuItemView>::empty(),
        ]);
        assert(r@.status_state.breadcrumbs =~= Seq::<Seq<char>>::empty());
        assert(r@.cloud_watch_state =~= empty_cloud_watch_state());
        assert(r@ =~= spec_initial_state(app_config@, name_entries_map(profile_names@)));
        r
    }

    /// A structurally equal copy: the snapshot handed to the rendering loop.
    pub fn snapshot(&self) -> (r: AppState)
        ensures
            r@ == self@,
    {
        let active_profile = match &self.active_profile {
            Some(p) => Some(p.duplicate()),
            None => None,
        };
        let mut names: Vec<ProfileNameEntry> = Vec::new();
        let mut i: usize = 0;
        while i < self.profile_state.profile_names.len()
            invariant
                i <= self.profile_state.profile_names.len(),
                names@.len() == i,
                forall|j: int|
                    0 <= j < i ==> (#[trigger] names@[j]).name@
                        == self.profile_state.profile_names@[j].name@ && names@[j].source
                        == self.profile_state.profile_names@[j].source,
            decreases self.profile_state.profile_names.len() - i,
        {
            let e = &self.profile_state.profile_names[i];
            names.push(ProfileNameEntry { name: e.name.clone(), source: e.source });
            i = i + 1;
        }
        proof {
            lemma_name_entries_map_congruence(
                names@,
                self.profile_state.profile_names@,
            );
        }
        let mut profiles: Vec<Profile> = Vec::new();
        let mut k: usize = 0;
        while k < self.profile_state.profiles.len()
            invariant
                k <= self.profile_state.profiles.len(),
                profiles@.len() == k,
                forall|j: int|
                    0 <= j < k ==> (#[trigger] profiles@[j])@ == self.profile_state.profiles@[j]@,
            decreases self.profile_state.profiles.len() - k,
        {
            profiles.push(self.profile_state.profiles[k].duplicate());
            k = k + 1;
        }
        proof {
            lemma_profiles_map_congruence(profiles@, self.profile_state.profiles@);
        }
        let r = AppState {
            aws_config: self.aws_config.duplicate(),
            focus_component: self.focus_component,
            is_expanded: self.is_expanded,
            terminal_area: self.terminal_area,
            active_profile,
            profile_state: ProfilesState { profile_names: names, profiles },
            region_state: RegionsState {
                region_names: crate::app_config::clone_string_vec(&self.region_state.region_names),
            },
            toolbar_state: self.toolbar_state.duplicate(),
            status_state: self.status_state.duplicate(),
            measure_state: self.measure_state,
            cloud_watch_state: self.cloud_watch_state.duplicate(),
        };
        assert(r@ =~= self@);
        r
    }
}

/// Two directories whose entries agree pairwise abstract to the same map.
pub proof fn lemma_name_entries_map_congruence(a: Seq<ProfileNameEntry>, b: Seq<ProfileNameEntry>)
    requires
        a.len() == b.len(),
        forall|j: int|
            0 <= j < a.len() ==> (#[trigger] a[j]).name@ == b[j].name@ && a[j].source == b[j].source,
    ensures
        name_entries_map(a) == name_entries_map(b),
    decreases a.len(),
{
    if a.len() > 0 {
        lemma_name_entries_map_congruence(a.drop_last(), b.drop_last());
        assert(a.last().name@ == b.last().name@ && a.last().source == b.last().source);
    }
}

/// Two caches whose profiles agree pairwise at the view level abstract to
/// the same map.
pub proof fn lemma_profiles_map_congruence(a: Seq<Profile>, b: Seq<Profile>)
    requires
        a.len() == b.len(),
        forall|j: int| 0 <= j < a.len() ==> (#[trigger] a[j])@ == b[j]@,
    ensures
        profiles_map(a) == profiles_map(b),
    decreases a.len(),
{
    if a.len() > 0 {
        lemma_profiles_map_congruence(a.drop_last(), b.drop_last());
        assert(a.last()@ == b.last()@);
        assert(a.last().name@ == b.last().name@);
    }
}

} // verus!
