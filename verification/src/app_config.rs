//! Resolved application configuration, handed to the core once at startup.
//!
//! Flag parsing and config-file merging happen outside the core; the core
//! only ever sees one already-resolved [`AppConfig`] value.

use vstd::prelude::*;
use vstd::string::StringExecFns;

verus! {

/// Cloud-related configuration: where credentials live, optional static
/// filters for profiles/regions/services, and an alternative endpoint.
pub struct AWSConfig {
    pub file_path: String,
    pub profiles: Vec<String>,
    pub regions: Vec<String>,
    pub services: Vec<String>,
    pub endpoint: String,
}

/// Logging configuration (read-only to the core).
pub struct LoggingConfig {
    pub level: String,
    pub log_file_path: String,
}

/// The single resolved configuration value consumed by the core.
pub struct AppConfig {
    pub aws: AWSConfig,
    pub logging: LoggingConfig,
    pub performance: String,
}

/// Mathematical abstraction of [`AWSConfig`].
#[verifier::ext_equal]
pub struct AWSConfigView {
    pub file_path: Seq<char>,
    pub profiles: Seq<Seq<char>>,
    pub regions: Seq<Seq<char>>,
    pub services: Seq<Seq<char>>,
    pub endpoint: Seq<char>,
}

impl View for AWSConfig {
    type V = AWSConfigView;

    open spec fn view(&self) -> AWSConfigView {
        AWSConfigView {
            file_path: self.file_path@,
            profiles: self.profiles.deep_view(),
            regions: self.regions.deep_view(),
            services: self.services.deep_view(),
            endpoint: self.endpoint@,
        }
    }
}

/// Mathematical abstraction of [`LoggingConfig`].
#[verifier::ext_equal]
pub struct LoggingConfigView {
    pub level: Seq<char>,
    pub log_file_path: Seq<char>,
}

impl View for LoggingConfig {
    type V = LoggingConfigView;

    open spec fn view(&self) -> LoggingConfigView {
        LoggingConfigView { level: self.level@, log_file_path: self.log_file_path@ }
    }
}

/// Mathematical abstraction of [`AppConfig`].
#[verifier::ext_equal]
pub struct AppConfigView {
    pub aws: AWSConfigView,
    pub logging: LoggingConfigView,
    pub performance: Seq<char>,
}

impl View for AppConfig {
    type V = AppConfigView;

    open spec fn view(&self) -> AppConfigView {
        AppConfigView { aws: self.aws@, logging: self.logging@, performance: self.performance@ }
    }
}

impl AWSConfig {
    /// A structurally equal copy of this configuration.
    pub fn duplicate(&self) -> (r: AWSConfig)
        ensures
            r@ == self@,
    {
        let r = AWSConfig {
            file_path: self.file_path.clone(),
            profiles: clone_string_vec(&self.profiles),
            regions: clone_string_vec(&self.regions),
            services: clone_string_vec(&self.services),
            endpoint: self.endpoint.clone(),
        };
        assert(r@ =~= self@);
        r
    }
}

/// A structurally equal copy of a vector of strings.
pub fn clone_string_vec(v: &Vec<String>) -> (r: Vec<String>)
    ensures
        r.deep_view() == v.deep_view(),
{
    let mut r: Vec<String> = Vec::new();
    let mut i: usize = 0;
    while i < v.len()
        invariant
            i <= v.len(),
            r@.len() == i,
            forall|j: int| 0 <= j < i ==> (#[trigger] r@[j])@ == v@[j]@,
        decreases v.len() - i,
    {
        r.push(v[i].clone());
        i = i + 1;
    }
    assert forall|j: int| 0 <= j < r.deep_view().len() implies r.deep_view()[j]
        == v.deep_view()[j] by {
        assert(r.deep_view()[j] == r@[j]@);
        assert(v.deep_view()[j] == v@[j]@);
    }
    assert(r.deep_view() =~= v.deep_view());
    r
}

/// The built-in defaults: everything empty but the warning log level and
/// the externally supplied credentials directory.
pub fn create_default_values(default_credential_path: String) -> (c: AppConfig)
    ensures
        c.aws.file_path == default_credential_path,
        c.aws.profiles@.len() == 0,
        c.aws.regions@.len() == 0,
        c.aws.services@.len() == 0,
        c.aws.endpoint@.len() == 0,
        c.logging.level@ == "WARN"@,
        c.logging.log_file_path@.len() == 0,
        c.performance@.len() == 0,
{
    AppConfig {
        aws: AWSConfig {
            file_path: default_credential_path,
            profiles: Vec::new(),
            regions: Vec::new(),
            services: Vec::new(),
            endpoint: String::new(),
        },
        logging: LoggingConfig {
            level: "WARN".to_owned(),
            log_file_path: String::new(),
        },
        performance: String::new(),
    }
}

/// The long description shown by the command-line help.
pub fn get_long_about() -> (r: String)
    ensures
        r@ == "aws-console-tui"@
            + "\n\naws-console-tui provides a AWS console directly within your terminal to create, browse, or edit your services."@,
{
    let mut about = "aws-console-tui".to_owned();
    about.append(
        "\n\naws-console-tui provides a AWS console directly within your terminal to create, browse, or edit your services.",
    );
    about
}

} // verus!
