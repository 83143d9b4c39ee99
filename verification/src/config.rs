//! Application configuration: which deployment this is, where the
//! configuration files lie, and the settings read from them.
//!
//! Reading the environment and the files is left to the caller; this module
//! decides what to read and what the outcome means.
use vstd::prelude::*;
use vstd::string::*;
use vstd::utf8::*;
use crate::text::{append_decimal, ascii_lowercase, trim_end, trim_start, decimal, lowercase, to_lowercase, trim, trimmed};

verus! {

/// Which deployment we are. It selects the configuration file layered on top
/// of `base.yaml`, so it is known before the files are read.
#[derive(Debug, Clone, Copy, PartialEq, Eq, Structural)]
pub enum Environment {
    Local,
    Production,
}

/// The name of an environment, as it appears in file names.
pub open spec fn environment_name(e: Environment) -> Seq<char> {
    match e {
        Environment::Local => "local"@,
        Environment::Production => "production"@,
    }
}

/// Law: the environments are named `local` and `production`, and a name
/// selects the environment spelled that way and nothing else.
pub proof fn lemma_environment_spellings(n: Seq<char>)
    ensures
        environment_name(Environment::Local) == seq!['l', 'o', 'c', 'a', 'l'],
        environment_name(Environment::Production) == seq![
            'p',
            'r',
            'o',
            'd',
            'u',
            'c',
            't',
            'i',
            'o',
            'n',
        ],
        environment_named(n) == Some(Environment::Local) <==> n == environment_name(Environment::Local),
        environment_named(n) == Some(Environment::Production) <==> n == environment_name(
            Environment::Production,
        ),
        environment_named(n) is None <==> (n != environment_name(Environment::Local) && n
            != environment_name(Environment::Production)),
{
    reveal_strlit("local");
    reveal_strlit("production");
    assert("local"@ =~= seq!['l', 'o', 'c', 'a', 'l']);
    assert("production"@ =~= seq!['p', 'r', 'o', 'd', 'u', 'c', 't', 'i', 'o', 'n']);
}

/// The environment whose name is exactly `n`, if any.
pub open spec fn environment_named(n: Seq<char>) -> Option<Environment> {
    if n == "local"@ {
        Some(Environment::Local)
    } else if n == "production"@ {
        Some(Environment::Production)
    } else {
        None
    }
}

/// What parsing the normalized name `n` gives: the environment of that name,
/// or `UnknownEnvironment` carrying `n`.
pub open spec fn parse_verdict(n: Seq<char>, r: Result<Environment, AppConfigError>) -> bool {
    match environment_named(n) {
        Some(e) => r == Ok::<Environment, AppConfigError>(e),
        None => r matches Err(AppConfigError::UnknownEnvironment(x)) && x@ == n,
    }
}

/// Law: the name of an environment parses back to it. The name is ASCII and
/// has no surrounding whitespace, so `Environment::from_str` (whose contract
/// states its ASCII case) returns `Ok(e)` on `e.as_str()`; and so does any
/// ASCII spelling of it that differs only in case and surrounding whitespace.
pub proof fn lemma_environment_name_parses_back(e: Environment)
    ensures
        trimmed(environment_name(e)) == environment_name(e),
        is_ascii_chars(environment_name(e)),
        ascii_lowercase(environment_name(e)) == environment_name(e),
        parse_verdict(environment_name(e), Ok(e)),
{
    reveal_strlit("local");
    reveal_strlit("production");
    let n = environment_name(e);
    assert(trim_start(n) == n);
    assert(trim_end(n) == n);
    assert(ascii_lowercase(n) =~= n);
}

impl Default for Environment {
    fn default() -> (r: Environment)
        ensures
            r == Environment::Local,
    {
        Environment::Local
    }
}

impl Environment {
    /// The name of the environment.
    pub fn as_str(self) -> (r: &'static str)
        ensures
            r@ == environment_name(self),
    {
        match self {
            Environment::Local => "local",
            Environment::Production => "production",
        }
    }

    /// The environment named exactly `s` (already trimmed and lower-cased).
    pub fn from_normalized(s: &str) -> (r: Result<Environment, AppConfigError>)
        ensures
            parse_verdict(s@, r),
    {
        let name = s.to_owned();
        if name == String::from_str("local") {
            Ok(Environment::Local)
        } else if name == String::from_str("production") {
            Ok(Environment::Production)
        } else {
            Err(AppConfigError::UnknownEnvironment(name))
        }
    }

    /// Parses an environment name, ignoring surrounding whitespace and case.
    pub fn from_str(s: &str) -> (r: Result<Environment, AppConfigError>)
        ensures
            parse_verdict(lowercase(trimmed(s@)), r),
            is_ascii_chars(trimmed(s@)) ==> parse_verdict(ascii_lowercase(trimmed(s@)), r),
    {
        let t = trim(s);
        let lower = to_lowercase(t);
        Environment::from_normalized(lower.as_str())
    }

    /// The environment given by the value of `APP_ENVIRONMENT`: `Local` when
    /// the variable is unset, otherwise the parse of its value.
    pub fn from_env(value: Option<String>) -> (r: Result<Environment, AppConfigError>)
        ensures
            match value {
                None => r == Ok::<Environment, AppConfigError>(Environment::Local),
                Some(v) => {
                    &&& parse_verdict(lowercase(trimmed(v@)), r)
                    &&& is_ascii_chars(trimmed(v@)) ==> parse_verdict(
                        ascii_lowercase(trimmed(v@)),
                        r,
                    )
                },
            },
    {
        match value {
            None => Ok(Environment::default()),
            Some(v) => Environment::from_str(v.as_str()),
        }
    }
}

impl std::str::FromStr for Environment {
    type Err = AppConfigError;

    fn from_str(s: &str) -> (r: Result<Environment, AppConfigError>)
        ensures
            parse_verdict(lowercase(trimmed(s@)), r),
            is_ascii_chars(trimmed(s@)) ==> parse_verdict(ascii_lowercase(trimmed(s@)), r),
    {
        Environment::from_str(s)
    }
}

/// Why the configuration could not be had.
#[derive(Debug, PartialEq, Eq)]
pub enum AppConfigError {
    UnknownEnvironment(String),
    Unreadable { dir: String, source: String },
    Invalid { dir: String, source: String },
}

/// The text of a configuration error.
pub open spec fn config_error_text(e: AppConfigError) -> Seq<char> {
    match e {
        AppConfigError::UnknownEnvironment(name) =>
            "`"@ + name@ + "` is not a known environment (expected `local` or `production`)"@,
        AppConfigError::Unreadable { dir, source } =>
            "could not read configuration from `"@ + dir@ + "`"@,
        AppConfigError::Invalid { dir, source } =>
            "configuration is invalid (check `"@ + dir@ + "` and `APP_*` env vars)"@,
    }
}

impl AppConfigError {
    /// The error as text.
    pub fn message(&self) -> (r: String)
        ensures
            r@ == config_error_text(*self),
    {
        match self {
            AppConfigError::UnknownEnvironment(name) => {
                let mut s = String::from_str("`");
                s.append(name.as_str());
                s.append("` is not a known environment (expected `local` or `production`)");
                s
            },
            AppConfigError::Unreadable { dir, source } => {
                let mut s = String::from_str("could not read configuration from `");
                s.append(dir.as_str());
                s.append("`");
                s
            },
            AppConfigError::Invalid { dir, source } => {
                let mut s = String::from_str("configuration is invalid (check `");
                s.append(dir.as_str());
                s.append("` and `APP_*` env vars)");
                s
            },
        }
    }
}

/// The path `Path::join` makes of `base` and `name`, as text. How the two
/// are put together (which separator, when one is added, what an absolute
/// `name` does) is the platform's and is left to this name; it depends on
/// the two paths alone.
pub uninterp spec fn joined_path(base: Seq<char>, name: Seq<char>) -> Seq<char>;

/// `Path::join`, rendered back to a string. Its result is named by
/// `joined_path`; the documentation of std gives no short statement of it
/// that holds on every platform, so none is made. Both inputs are UTF-8, so
/// the rendering loses nothing.
#[verifier::external_body]
fn join_path(base: &str, name: &str) -> (r: String)
    ensures
        r@ == joined_path(base@, name@),
{
    std::path::Path::new(base).join(name).to_string_lossy().into_owned()
}

/// The server's listening endpoint.
#[derive(Debug)]
pub struct ServerConfig {
    host: String,
    port: u16,
}

impl ServerConfig {
    /// The host name or address.
    pub closed spec fn spec_host(&self) -> Seq<char> {
        self.host@
    }

    /// The port.
    pub closed spec fn spec_port(&self) -> u16 {
        self.port
    }

    pub fn new(host: String, port: u16) -> (r: ServerConfig)
        ensures
            r.spec_host() == host@,
            r.spec_port() == port,
    {
        ServerConfig { host, port }
    }

    /// The port.
    pub fn port(&self) -> (r: u16)
        ensures
            r == self.spec_port(),
    {
        self.port
    }

    /// `host:port`, the configured address.
    pub fn address(&self) -> (r: String)
        ensures
            r@ == self.spec_host() + ":"@ + decimal(self.spec_port() as nat),
    {
        let mut s = String::from_str(self.host.as_str());
        s.append(":");
        append_decimal(&mut s, self.port as u64);
        s
    }
}

/// Logging settings.
#[derive(Debug)]
pub struct TelemetryConfig {
    log_filter: String,
}

impl TelemetryConfig {
    /// The log filter directive.
    pub closed spec fn spec_log_filter(&self) -> Seq<char> {
        self.log_filter@
    }

    pub fn new(log_filter: String) -> (r: TelemetryConfig)
        ensures
            r.spec_log_filter() == log_filter@,
    {
        TelemetryConfig { log_filter }
    }
}

/// What to read to build the configuration: the environment, chosen before
/// any file is read, the directory, and the two files layered in order
/// (later sources win, and the `APP_*` variables win over both).
#[derive(Debug)]
pub struct LoadPlan {
    pub environment: Environment,
    pub dir: String,
    pub base_file: String,
    pub environment_file: String,
}

/// Why reading the planned sources failed, with the reader's own message.
#[derive(Debug)]
pub enum ConfigFailure {
    /// The sources could not be read or merged.
    Unreadable(String),
    /// The merged settings do not have the expected shape.
    Invalid(String),
}

/// The settings that the files and variables provide.
#[derive(Debug)]
pub struct Settings {
    pub server: ServerConfig,
    pub telemetry: TelemetryConfig,
}

/// The configuration of the application.
#[derive(Debug)]
pub struct AppConfig {
    environment: Environment,
    server: ServerConfig,
    telemetry: TelemetryConfig,
}

/// The directory that holds the configuration files: `APP_CONFIG_DIR` when it
/// is set, otherwise `configuration/` inside the crate's directory.
pub open spec fn config_dir_spec(dir_var: Option<Seq<char>>, crate_dir: Seq<char>) -> Seq<char> {
    match dir_var {
        Some(d) => d,
        None => joined_path(crate_dir, "configuration"@),
    }
}

/// The file layered for environment `e`: `{name}.yaml`.
pub open spec fn environment_file_name(e: Environment) -> Seq<char> {
    environment_name(e) + ".yaml"@
}

impl AppConfig {
    /// The environment the configuration belongs to.
    pub closed spec fn spec_environment(&self) -> Environment {
        self.environment
    }

    /// The server section.
    pub closed spec fn spec_server(&self) -> ServerConfig {
        self.server
    }

    /// The telemetry section.
    pub closed spec fn spec_telemetry(&self) -> TelemetryConfig {
        self.telemetry
    }

    /// Whether the environment variable `name` takes part in the settings as
    /// the top layer. `APP_CONFIG_DIR` only says where the files lie, so it is
    /// kept out; every other variable is offered (the reader keeps those with
    /// the `APP_` prefix).
    pub fn is_setting_variable(name: &str) -> (r: bool)
        ensures
            r == (name@ != "APP_CONFIG_DIR"@),
    {
        !(name.to_owned() == String::from_str("APP_CONFIG_DIR"))
    }

    /// The configuration directory, from the value of `APP_CONFIG_DIR` and the
    /// crate's own directory.
    pub fn config_dir(dir_var: Option<String>, crate_dir: &str) -> (r: String)
        ensures
            r@ == config_dir_spec(
                match dir_var {
                    Some(d) => Some(d@),
                    None => None,
                },
                crate_dir@,
            ),
    {
        match dir_var {
            Some(d) => d,
            None => join_path(crate_dir, "configuration"),
        }
    }

    /// Decides what to read: the environment from the value of
    /// `APP_ENVIRONMENT`, the directory, and the files `base.yaml` and
    /// `{environment}.yaml` in it. Fails only on an unknown environment.
    pub fn plan(
        environment_var: Option<String>,
        dir_var: Option<String>,
        crate_dir: &str,
    ) -> (r: Result<LoadPlan, AppConfigError>)
        ensures
            match environment_var {
                None => r is Ok && r->Ok_0.environment == Environment::Local,
                Some(v) => match environment_named(lowercase(trimmed(v@))) {
                    Some(e) => r is Ok && r->Ok_0.environment == e,
                    None => r matches Err(AppConfigError::UnknownEnvironment(x))
                        && x@ == lowercase(trimmed(v@)),
                },
            },
            match environment_var {
                None => true,
                Some(v) => is_ascii_chars(trimmed(v@)) ==> match environment_named(
                    ascii_lowercase(trimmed(v@)),
                ) {
                    Some(e) => r is Ok && r->Ok_0.environment == e,
                    None => r matches Err(AppConfigError::UnknownEnvironment(x))
                        && x@ == ascii_lowercase(trimmed(v@)),
                },
            },
            r matches Ok(p) ==> {
                &&& p.dir@ == config_dir_spec(
                    match dir_var {
                        Some(d) => Some(d@),
                        None => None,
                    },
                    crate_dir@,
                )
                &&& p.base_file@ == joined_path(p.dir@, "base.yaml"@)
                &&& p.environment_file@ == joined_path(p.dir@, environment_file_name(p.environment))
            },
    {
        let environment = match Environment::from_env(environment_var) {
            Ok(e) => e,
            Err(err) => return Err(err),
        };
        let dir = AppConfig::config_dir(dir_var, crate_dir);
        let base_file = join_path(dir.as_str(), "base.yaml");
        let name = String::from_str(environment.as_str()).concat(".yaml");
        let environment_file = join_path(dir.as_str(), name.as_str());
        Ok(LoadPlan { environment, dir, base_file, environment_file })
    }

    /// Finishes a load: the outcome of reading the planned sources becomes the
    /// configuration, whose environment is always the planned one whatever
    /// the files say, or the error naming the directory.
    pub fn load(plan: LoadPlan, outcome: Result<Settings, ConfigFailure>) -> (r: Result<
        AppConfig,
        AppConfigError,
    >)
        ensures
            match outcome {
                Ok(s) => r is Ok && r->Ok_0.spec_environment() == plan.environment
                    && r->Ok_0.spec_server() == s.server && r->Ok_0.spec_telemetry() == s.telemetry,
                Err(ConfigFailure::Unreadable(m)) => r matches Err(
                    AppConfigError::Unreadable { dir, source },
                ) && dir@ == plan.dir@ && source@ == m@,
                Err(ConfigFailure::Invalid(m)) => r matches Err(
                    AppConfigError::Invalid { dir, source },
                ) && dir@ == plan.dir@ && source@ == m@,
            },
    {
        match outcome {
            Ok(settings) => Ok(
                AppConfig {
                    environment: plan.environment,
                    server: settings.server,
                    telemetry: settings.telemetry,
                },
            ),
            Err(ConfigFailure::Unreadable(source)) => Err(
                AppConfigError::Unreadable { dir: plan.dir, source },
            ),
            Err(ConfigFailure::Invalid(source)) => Err(
                AppConfigError::Invalid { dir: plan.dir, source },
            ),
        }
    }

    pub fn environment(&self) -> (r: Environment)
        ensures
            r == self.spec_environment(),
    {
        self.environment
    }

    pub fn server(&self) -> (r: &ServerConfig)
        ensures
            *r == self.spec_server(),
    {
        &self.server
    }

    pub fn log_filter(&self) -> (r: &str)
        ensures
            r@ == self.spec_telemetry().spec_log_filter(),
    {
        self.telemetry.log_filter.as_str()
    }
}

} // verus!
