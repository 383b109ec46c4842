//! Profile discovery: environment, credentials file and config file.

use aws_console_tui::appstate::{ProfileNameEntry, ProfileSource};
use aws_console_tui::profiles::{
    extract_profiles_from_file, get_available_profiles, get_profile_from_env, join_full_path,
};

fn source_of<'a>(profiles: &'a [ProfileNameEntry], name: &str) -> Option<&'a ProfileSource> {
    profiles.iter().find(|e| e.name == name).map(|e| &e.source)
}

#[test]
fn test_complete_env_config() {
    let id = "test_id";
    let env_profile = get_profile_from_env(id.to_string(), "secret".to_string(), "any".to_string());

    let profiles = get_available_profiles(env_profile, None, None);

    assert_eq!(1, profiles.len());
    assert!(matches!(
        source_of(&profiles, id).unwrap(),
        ProfileSource::Environment
    ));
}

#[test]
fn test_incomplete_env_config() {
    let id = "test_id";
    let env_profile = get_profile_from_env(id.to_string(), "secret".to_string(), String::new());

    let profiles = get_available_profiles(env_profile, None, None);

    assert_eq!(0, profiles.len());
}

#[test]
fn test_credential_file_profile_fetch() {
    let credentials = r"
[default]
lorem ipsum
lorem ipsum

[dev-test]
lorem ipsum
lorem ipsum";

    let profiles = get_available_profiles(None, Some(credentials), None);

    assert_eq!(2, profiles.len());
    assert!(source_of(&profiles, "default").is_some());
    assert!(source_of(&profiles, "dev-test").is_some());
}

#[test]
fn test_config_file_profile_fetch() {
    let config = r"
[profile default]
lorem ipsum
lorem ipsum

[profile dev]
lorem ipsum
lorem ipsum
    ";

    let profiles = get_available_profiles(None, None, Some(config));

    assert_eq!(2, profiles.len());
    assert!(source_of(&profiles, "default").is_some());
    assert!(source_of(&profiles, "dev").is_some());
}

#[test]
fn extract_credentials_sections() {
    let names = extract_profiles_from_file("[default]\n[dev]\nnoise", false);
    assert_eq!(names, vec!["default".to_string(), "dev".to_string()]);
}

#[test]
fn extract_keeps_first_occurrence_only() {
    let names = extract_profiles_from_file("[a]\n[b]\n[a]", false);
    assert_eq!(names, vec!["a".to_string(), "b".to_string()]);
}

#[test]
fn extract_is_greedy_within_a_line() {
    // The capture runs from the first `[` to the closing `]` at the very
    // end of the line.
    let names = extract_profiles_from_file("a[b][c]", false);
    assert_eq!(names, vec!["b][c".to_string()]);
}

#[test]
fn extract_needs_closing_bracket_at_line_end() {
    let names = extract_profiles_from_file("[a] trailing\n[b", false);
    assert_eq!(names, Vec::<String>::new());
}

#[test]
fn extract_empty_section_name() {
    let names = extract_profiles_from_file("[]", false);
    assert_eq!(names, vec![String::new()]);
}

#[test]
fn extract_config_sections_case_insensitive() {
    let names = extract_profiles_from_file("[PROFILE staging]\n[profile dev]", true);
    assert_eq!(names, vec!["staging".to_string(), "dev".to_string()]);
}

#[test]
fn extract_config_ignores_plain_sections() {
    let names = extract_profiles_from_file("[default]\n[profile dev]", true);
    assert_eq!(names, vec!["dev".to_string()]);
}

#[test]
fn later_origin_overrides_earlier_one() {
    let profiles = get_available_profiles(
        Some("dev".to_string()),
        Some("[dev]\n[extra]"),
        Some("[profile dev]"),
    );

    assert_eq!(2, profiles.len());
    assert!(matches!(
        source_of(&profiles, "dev").unwrap(),
        ProfileSource::ConfigFile
    ));
    assert!(matches!(
        source_of(&profiles, "extra").unwrap(),
        ProfileSource::CredentialsFile
    ));
}

#[test]
fn join_full_path_inserts_separator() {
    assert_eq!(join_full_path("/home/user/.aws".to_string(), "credentials"), "/home/user/.aws/credentials");
    assert_eq!(join_full_path("/home/user/.aws/".to_string(), "config"), "/home/user/.aws/config");
    assert_eq!(join_full_path(String::new(), "config"), "config");
}
