//! The initial aggregate, the focus state machine and the fixed UI text.

use aws_console_tui::app_config::{
    create_default_values, get_long_about, AWSConfig, AppConfig, LoggingConfig,
};
use aws_console_tui::appstate::{
    AWSService, AppState, ComponentType, MenuItem, ProfileNameEntry, ProfileSource,
};
use aws_console_tui::focus::{next_focus_component, previous_focus_component};
use aws_console_tui::ui_config::{breadcrumbs, menu, messages};

fn config() -> AppConfig {
    AppConfig {
        aws: AWSConfig {
            file_path: "/home/user/.aws".to_string(),
            profiles: Vec::new(),
            regions: Vec::new(),
            services: Vec::new(),
            endpoint: String::new(),
        },
        logging: LoggingConfig {
            level: "WARN".to_string(),
            log_file_path: String::new(),
        },
        performance: String::new(),
    }
}

#[test]
fn initial_state() {
    let state = AppState::new(
        &config(),
        vec![ProfileNameEntry {
            name: "dev".to_string(),
            source: ProfileSource::CredentialsFile,
        }],
    );

    assert_eq!(state.focus_component, ComponentType::Profiles);
    assert!(state.is_expanded);
    assert!(state.active_profile.is_none());
    assert_eq!(state.profile_state.profile_names.len(), 1);
    assert!(state.profile_state.profiles.is_empty());
    assert_eq!(state.toolbar_state.profile_name, "none");
    assert_eq!(state.toolbar_state.account, "none");
    assert_eq!(state.toolbar_state.user, "none");
    assert!(!state.status_state.action_pending);
    assert_eq!(
        state.status_state.message,
        "No profile active. Please select profile and press <Enter>"
    );
    assert!(state.status_state.err_message.is_empty());
    assert!(!state.measure_state.is_active);
    assert!(state.cloud_watch_state.log_groups.is_empty());
}

#[test]
fn performance_flag_activates_measuring() {
    let mut cfg = config();
    cfg.performance = "yes".to_string();
    let state = AppState::new(&cfg, Vec::new());
    assert!(state.measure_state.is_active);
}

#[test]
fn snapshot_is_a_faithful_copy() {
    let state = AppState::new(
        &config(),
        vec![ProfileNameEntry {
            name: "dev".to_string(),
            source: ProfileSource::CredentialsFile,
        }],
    );
    let copy = state.snapshot();
    assert_eq!(copy.focus_component, state.focus_component);
    assert_eq!(copy.status_state.message, state.status_state.message);
    assert_eq!(
        copy.profile_state.profile_names.len(),
        state.profile_state.profile_names.len()
    );
}

#[test]
fn forward_cycle_visits_all_views() {
    let svc = AWSService::CloudWatchLogs;
    assert_eq!(
        next_focus_component(ComponentType::Profiles, svc),
        ComponentType::Regions
    );
    assert_eq!(
        next_focus_component(ComponentType::Regions, svc),
        ComponentType::Services
    );
    assert_eq!(
        next_focus_component(ComponentType::Services, svc),
        ComponentType::AWSService
    );
    assert_eq!(
        next_focus_component(ComponentType::AWSService, svc),
        ComponentType::Profiles
    );
}

#[test]
fn forward_cycle_skips_service_view_without_selection() {
    assert_eq!(
        next_focus_component(ComponentType::Services, AWSService::NoService),
        ComponentType::Profiles
    );
}

#[test]
fn backward_cycle_reverses_the_forward_cycle() {
    let svc = AWSService::Eks;
    assert_eq!(
        previous_focus_component(ComponentType::Profiles, svc),
        ComponentType::AWSService
    );
    assert_eq!(
        previous_focus_component(ComponentType::Profiles, AWSService::NoService),
        ComponentType::Services
    );
    assert_eq!(
        previous_focus_component(ComponentType::Regions, svc),
        ComponentType::Profiles
    );
    assert_eq!(
        previous_focus_component(ComponentType::Services, svc),
        ComponentType::Regions
    );
    assert_eq!(
        previous_focus_component(ComponentType::AWSService, svc),
        ComponentType::Services
    );
}

#[test]
fn non_cycling_views_keep_focus() {
    assert_eq!(
        next_focus_component(ComponentType::Home, AWSService::NoService),
        ComponentType::Home
    );
    assert_eq!(
        previous_focus_component(ComponentType::Status, AWSService::NoService),
        ComponentType::Status
    );
}

#[test]
fn default_config_values() {
    let cfg = create_default_values("/home/user/.aws".to_string());
    assert_eq!(cfg.aws.file_path, "/home/user/.aws");
    assert!(cfg.aws.profiles.is_empty());
    assert!(cfg.aws.regions.is_empty());
    assert!(cfg.aws.services.is_empty());
    assert_eq!(cfg.aws.endpoint, "");
    assert_eq!(cfg.logging.level, "WARN");
    assert_eq!(cfg.logging.log_file_path, "");
    assert_eq!(cfg.performance, "");
}

#[test]
fn long_about_text() {
    let about = get_long_about();
    assert!(about.starts_with("aws-console-tui"));
    assert!(about.contains("within your terminal"));
}

#[test]
fn fixed_ui_text() {
    let m = messages();
    assert_eq!(m.pending_action, "Pending action. Please wait ...");
    assert!(m.error_caller_identity.contains("caller identity"));
    assert!(m
        .error_describe_cloud_watch_log_groups
        .contains("CloudWatch Log Groups"));

    let b = breadcrumbs();
    assert_eq!(b.profiles, " <profiles> ");
    assert_eq!(b.cloud_watch_logs, "<logs>");

    let menu = menu();
    assert_eq!(menu.quit.command, "<ctrl-c>");
    assert_eq!(menu.tab.title, "cycle forward");
}

#[test]
fn menu_item_from_text() {
    let item: MenuItem = menu().select.into();
    assert_eq!(item.command, "<enter>");
    assert_eq!(item.title, "select");
    assert_eq!(item.color_index, 1);
}
