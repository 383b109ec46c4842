//! End-to-end behaviour of the state store: profile selection, failure
//! containment, broadcasting, and the log-group listing.

use aws_console_tui::actions::{
    Action, CloudWatchLogsAction, ProfileAction, RegionAction, ServiceAction,
};
use aws_console_tui::app_config::{AWSConfig, AppConfig, LoggingConfig};
use aws_console_tui::appstate::{
    AWSService, AppState, ComponentType, ProfileNameEntry, ProfileSource, Session,
};
use aws_console_tui::cloud_watch_logs_state::CloudWatchLogGroup;
use aws_console_tui::manager::StateManager;
use aws_console_tui::remote::{AwsCallerIdentity, RemoteError, RemoteResult};

fn config() -> AppConfig {
    AppConfig {
        aws: AWSConfig {
            file_path: "/home/user/.aws".to_string(),
            profiles: Vec::new(),
            regions: Vec::new(),
            services: Vec::new(),
            endpoint: String::new(),
        },
        logging: LoggingConfig {
            level: "WARN".to_string(),
            log_file_path: String::new(),
        },
        performance: String::new(),
    }
}

fn entry(name: &str) -> ProfileNameEntry {
    ProfileNameEntry {
        name: name.to_string(),
        source: ProfileSource::CredentialsFile,
    }
}

fn store() -> StateManager {
    StateManager::new(
        &config(),
        vec![entry("dev"), entry("broken"), entry("a"), entry("b")],
    )
}

fn select(name: &str) -> Action {
    Action::Profile {
        action: ProfileAction::SelectProfile {
            profile: (name.to_string(), ProfileSource::CredentialsFile),
        },
    }
}

fn session_ok(id: u64) -> RemoteResult {
    RemoteResult::Session(Ok(Session {
        id,
        region: Some("eu-west-1".to_string()),
    }))
}

fn identity_ok(account: &str, user: &str) -> RemoteResult {
    RemoteResult::Identity(Ok(AwsCallerIdentity {
        account: account.to_string(),
        arn: format!("arn:aws:iam::{account}:user/{user}"),
        user_id: user.to_string(),
    }))
}

fn regions_ok(regions: &[&str]) -> RemoteResult {
    RemoteResult::Regions(Ok(regions.iter().map(|r| r.to_string()).collect()))
}

fn remote_error(message: &str) -> RemoteError {
    RemoteError {
        message: message.to_string(),
        backtrace: format!("backtrace: {message}"),
    }
}

fn group(name: &str) -> CloudWatchLogGroup {
    CloudWatchLogGroup {
        arn: format!("arn:aws:logs:::{name}"),
        name: Some(name.to_string()),
        date_created: Some(1),
        retention_days: None,
        stored_bytes: Some(10),
        log_streams: Vec::new(),
    }
}

fn active_name(state: &AppState) -> Option<&str> {
    state.active_profile.as_ref().map(|p| p.name.as_str())
}

fn cached_names(state: &AppState) -> Vec<&str> {
    state
        .profile_state
        .profiles
        .iter()
        .map(|p| p.name.as_str())
        .collect()
}

#[test]
fn select_profile_against_working_backend() {
    let mut store = store();
    let broadcasts = store.run(
        vec![select("dev")],
        vec![
            session_ok(7),
            identity_ok("123456789012", "dev-user"),
            regions_ok(&["eu-central-1", "eu-west-1"]),
        ],
    );

    assert!(broadcasts.iter().any(|s| s.status_state.action_pending));
    let last = broadcasts.last().unwrap();
    assert_eq!(active_name(last), Some("dev"));
    let profile = last.active_profile.as_ref().unwrap();
    assert!(!profile.account.is_empty());
    assert!(!profile.user.is_empty());
    assert_eq!(profile.regions, vec!["eu-central-1", "eu-west-1"]);
    assert_eq!(profile.selected_region.as_deref(), Some("eu-west-1"));
    assert!(!last.status_state.action_pending);
    assert!(last.status_state.err_message.is_empty());
    assert!(last.status_state.err_message_backtrace.is_empty());
    assert_eq!(last.toolbar_state.profile_name, "dev");
    assert_eq!(last.toolbar_state.account, "123456789012");
    assert_eq!(last.focus_component, ComponentType::Services);
}

#[test]
fn select_profile_identity_check_fails() {
    let mut store = store();
    let broadcasts = store.run(
        vec![select("broken")],
        vec![
            session_ok(7),
            RemoteResult::Identity(Err(remote_error("boom"))),
        ],
    );

    let last = broadcasts.last().unwrap();
    assert!(last.active_profile.is_none());
    assert!(!last.status_state.err_message.is_empty());
    assert!(!last.status_state.err_message_backtrace.is_empty());
    assert_eq!(
        last.status_state.err_message,
        "Error boom. Press <CRL-m> for more information."
    );
    assert!(!last.status_state.action_pending);
    // The failed attempt is recorded in the cache, but never reused as-is.
    assert_eq!(cached_names(last), vec!["broken"]);
    // The toolbar still shows the startup placeholders.
    assert_eq!(last.toolbar_state.profile_name, "none");
}

#[test]
fn failed_selection_leaves_active_profile_untouched() {
    let mut store = store();
    store.run(
        vec![select("dev")],
        vec![
            session_ok(1),
            identity_ok("123", "dev-user"),
            regions_ok(&["eu-central-1"]),
        ],
    );
    let broadcasts = store.run(
        vec![select("broken")],
        vec![RemoteResult::Session(Err(remote_error("no session")))],
    );

    let last = broadcasts.last().unwrap();
    assert_eq!(active_name(last), Some("dev"));
    assert!(!last.status_state.err_message.is_empty());
}

#[test]
fn select_region_without_active_profile_is_a_no_op() {
    let mut store = store();
    let before = store.state.snapshot();
    let broadcasts = store.run(
        vec![Action::Region {
            action: RegionAction::SelectRegion {
                region_name: "eu-central-1".to_string(),
            },
        }],
        Vec::new(),
    );

    assert_eq!(broadcasts.len(), 1);
    let last = broadcasts.last().unwrap();
    assert!(last.active_profile.is_none());
    assert_eq!(
        last.status_state.message,
        before.status_state.message
    );
    assert_eq!(last.focus_component, before.focus_component);
}

#[test]
fn select_region_with_active_profile() {
    let mut store = store();
    let broadcasts = store.run(
        vec![
            select("dev"),
            Action::Region {
                action: RegionAction::SelectRegion {
                    region_name: "eu-central-1".to_string(),
                },
            },
        ],
        vec![
            session_ok(1),
            identity_ok("123", "dev-user"),
            regions_ok(&["eu-central-1", "eu-west-1"]),
        ],
    );

    let last = broadcasts.last().unwrap();
    let profile = last.active_profile.as_ref().unwrap();
    assert_eq!(profile.selected_region.as_deref(), Some("eu-central-1"));
}

#[test]
fn select_service_then_list_log_groups() {
    let mut store = store();
    let broadcasts = store.run(
        vec![
            select("dev"),
            Action::Service {
                action: ServiceAction::SelectService {
                    service: AWSService::CloudWatchLogs,
                },
            },
            Action::CloudWatchLogs {
                action: CloudWatchLogsAction::GetLogGroups { token: None },
            },
        ],
        vec![
            session_ok(1),
            identity_ok("123", "dev-user"),
            regions_ok(&["eu-central-1"]),
            RemoteResult::LogGroups(Ok(vec![group("alpha"), group("beta"), group("gamma")])),
        ],
    );

    let last = broadcasts.last().unwrap();
    let profile = last.active_profile.as_ref().unwrap();
    assert_eq!(profile.selected_service, AWSService::CloudWatchLogs);
    assert_eq!(last.focus_component, ComponentType::AWSService);
    let names: Vec<_> = last
        .cloud_watch_state
        .log_groups
        .iter()
        .map(|g| g.name.as_deref().unwrap())
        .collect();
    assert_eq!(names, vec!["alpha", "beta", "gamma"]);
    assert!(last.cloud_watch_state.selected_log_group.is_none());
}

#[test]
fn log_group_listing_failure_clears_the_list() {
    let mut store = store();
    let broadcasts = store.run(
        vec![
            select("dev"),
            Action::CloudWatchLogs {
                action: CloudWatchLogsAction::GetLogGroups { token: None },
            },
            Action::CloudWatchLogs {
                action: CloudWatchLogsAction::GetLogGroups { token: None },
            },
        ],
        vec![
            session_ok(1),
            identity_ok("123", "dev-user"),
            regions_ok(&["eu-central-1"]),
            RemoteResult::LogGroups(Ok(vec![group("alpha")])),
            RemoteResult::LogGroups(Err(remote_error("listing failed"))),
        ],
    );

    let last = broadcasts.last().unwrap();
    assert!(last.cloud_watch_state.log_groups.is_empty());
    assert!(!last.status_state.err_message.is_empty());
}

#[test]
fn get_log_groups_without_active_profile_is_a_no_op() {
    let mut store = store();
    let broadcasts = store.run(
        vec![Action::CloudWatchLogs {
            action: CloudWatchLogsAction::GetLogGroups { token: None },
        }],
        Vec::new(),
    );

    assert_eq!(broadcasts.len(), 1);
    let last = broadcasts.last().unwrap();
    assert!(last.cloud_watch_state.log_groups.is_empty());
    assert!(!last.status_state.action_pending);
}

#[test]
fn reselecting_the_active_profile_issues_no_remote_call() {
    let mut store = store();
    store.run(
        vec![select("dev")],
        vec![
            session_ok(1),
            identity_ok("123", "dev-user"),
            regions_ok(&["eu-central-1"]),
        ],
    );
    let before = store.state.snapshot();

    // No script entries: any remote call would surface as a synthesized
    // failure in the state.
    let broadcasts = store.run(vec![select("dev")], Vec::new());

    assert_eq!(broadcasts.len(), 1);
    let last = broadcasts.last().unwrap();
    assert_eq!(active_name(last), Some("dev"));
    assert_eq!(last.status_state.err_message, before.status_state.err_message);
    assert_eq!(last.status_state.message, before.status_state.message);
    assert!(!last.status_state.action_pending);
    assert_eq!(last.toolbar_state.account, before.toolbar_state.account);
    assert_eq!(cached_names(last), cached_names(&before));
}

#[test]
fn cached_profile_is_reused_verbatim() {
    let mut store = store();
    store.run(
        vec![select("a"), select("b")],
        vec![
            session_ok(1),
            identity_ok("111", "user-a"),
            regions_ok(&["eu-central-1"]),
            session_ok(2),
            identity_ok("222", "user-b"),
            regions_ok(&["eu-west-1"]),
        ],
    );

    // Selecting "a" again must complete without any remote call.
    let broadcasts = store.run(vec![select("a")], Vec::new());
    let last = broadcasts.last().unwrap();
    assert_eq!(active_name(last), Some("a"));
    let profile = last.active_profile.as_ref().unwrap();
    assert_eq!(profile.account, "111");
    assert_eq!(profile.user, "user-a");
    // "b" was healthy and active, so it moved into the cache.
    assert!(cached_names(last).contains(&"b"));
    assert!(!cached_names(last).contains(&"a"));
}

#[test]
fn resolved_profile_is_cached_before_the_next_becomes_active() {
    let mut store = store();
    let broadcasts = store.run(
        vec![select("a"), select("b")],
        vec![
            session_ok(1),
            identity_ok("111", "user-a"),
            regions_ok(&["eu-central-1"]),
            session_ok(2),
            identity_ok("222", "user-b"),
            regions_ok(&["eu-west-1"]),
        ],
    );

    // In the first broadcast that shows "b" active, "a" is already in the
    // resolved-profile cache.
    let first_b = broadcasts
        .iter()
        .find(|s| active_name(s) == Some("b"))
        .unwrap();
    assert!(cached_names(first_b).contains(&"a"));
    let last = broadcasts.last().unwrap();
    assert_eq!(active_name(last), Some("b"));
}

#[test]
fn at_least_one_broadcast_per_action() {
    let mut store = store();
    let actions = vec![
        Action::ToggleSidePane,
        select("dev"),
        Action::SetFocus {
            component_type: ComponentType::Regions,
        },
        Action::RenderDuration { duration: 12 },
    ];
    let n_actions = actions.len();
    let broadcasts = store.run(
        actions,
        vec![
            session_ok(1),
            identity_ok("123", "dev-user"),
            regions_ok(&["eu-central-1"]),
        ],
    );

    assert!(broadcasts.len() >= n_actions);
}

#[test]
fn handler_failure_does_not_stop_later_actions() {
    let mut store = store();
    let broadcasts = store.run(
        vec![
            select("broken"),
            Action::SetFocus {
                component_type: ComponentType::Regions,
            },
            Action::ToggleSidePane,
        ],
        vec![RemoteResult::Session(Err(remote_error("down")))],
    );

    let last = broadcasts.last().unwrap();
    assert_eq!(last.focus_component, ComponentType::Regions);
    assert!(!last.is_expanded);
    assert!(!last.status_state.err_message.is_empty());
}

#[test]
fn earlier_effects_are_visible_before_later_ones() {
    let mut store = store();
    let broadcasts = store.run(
        vec![
            Action::SetFocus {
                component_type: ComponentType::Regions,
            },
            Action::ToggleSidePane,
        ],
        Vec::new(),
    );

    // Some broadcast shows the first action's full effect while the side
    // pane is still untouched; no snapshot mixes the second action's
    // effect with a missing first effect.
    assert!(broadcasts
        .iter()
        .any(|s| s.focus_component == ComponentType::Regions && s.is_expanded));
    for s in &broadcasts {
        if !s.is_expanded {
            assert_eq!(s.focus_component, ComponentType::Regions);
        }
    }
}

#[test]
fn unanswered_remote_call_is_contained_as_a_failure() {
    let mut store = store();
    let broadcasts = store.run(vec![select("dev")], Vec::new());

    let last = broadcasts.last().unwrap();
    assert!(last.active_profile.is_none());
    assert!(!last.status_state.err_message.is_empty());
    assert!(!last.status_state.action_pending);
}

#[test]
fn sync_actions_mutate_their_fields() {
    let mut store = store();
    let broadcasts = store.run(
        vec![
            Action::SetBreadcrumbs {
                breadcrumbs: vec![" <profiles> ".to_string()],
            },
            Action::SetTerminalArea {
                area: aws_console_tui::appstate::Rect {
                    x: 0,
                    y: 0,
                    width: 120,
                    height: 40,
                },
            },
            Action::RenderDuration { duration: 7 },
        ],
        Vec::new(),
    );

    let last = broadcasts.last().unwrap();
    assert_eq!(last.status_state.breadcrumbs, vec![" <profiles> ".to_string()]);
    assert_eq!(last.terminal_area.width, 120);
    assert_eq!(last.measure_state.render_duration, 7);
}

#[test]
fn listing_replaces_the_previous_log_groups() {
    let mut store = store();
    let broadcasts = store.run(
        vec![
            select("dev"),
            Action::CloudWatchLogs {
                action: CloudWatchLogsAction::GetLogGroups { token: None },
            },
            Action::CloudWatchLogs {
                action: CloudWatchLogsAction::GetLogGroups {
                    token: Some("continue-here".to_string()),
                },
            },
        ],
        vec![
            session_ok(1),
            identity_ok("123", "dev-user"),
            regions_ok(&["eu-central-1"]),
            RemoteResult::LogGroups(Ok(vec![group("alpha"), group("beta")])),
            RemoteResult::LogGroups(Ok(vec![group("gamma")])),
        ],
    );

    // The second listing replaces the cached list; nothing is appended.
    let last = broadcasts.last().unwrap();
    let names: Vec<_> = last
        .cloud_watch_state
        .log_groups
        .iter()
        .map(|g| g.name.as_deref().unwrap())
        .collect();
    assert_eq!(names, vec!["gamma"]);
}

#[test]
fn set_menu_fills_the_toolbar_columns() {
    let mut store = store();
    let quit: aws_console_tui::appstate::MenuItem = aws_console_tui::ui_config::menu().quit.into();
    let broadcasts = store.run(
        vec![Action::SetMenu {
            menu_items: [vec![quit], Vec::new(), Vec::new()],
        }],
        Vec::new(),
    );

    let last = broadcasts.last().unwrap();
    assert_eq!(last.toolbar_state.menu_items[0].len(), 1);
    assert_eq!(last.toolbar_state.menu_items[0][0].command, "<ctrl-c>");
    assert!(last.toolbar_state.menu_items[1].is_empty());
}

#[test]
fn metrics_tick_updates_the_toolbar() {
    let mut store = store();
    store.apply_metrics_tick("12.50 %".to_string(), "48.21 %".to_string());
    assert_eq!(store.state.toolbar_state.cpu_usage, "12.50 %");
    assert_eq!(store.state.toolbar_state.memory_usage, "48.21 %");
    store.record_action_duration(31);
    assert_eq!(store.state.measure_state.action_duration, 31);
}
