use ticket_management::{
    AppConfig, AppConfigError, ConfigFailure, Environment, ServerConfig, Settings,
    TelemetryConfig,
};

#[test]
fn environment_names() {
    assert_eq!(Environment::Local.as_str(), "local");
    assert_eq!(Environment::Production.as_str(), "production");
    assert_eq!(Environment::default(), Environment::Local);
}

#[test]
fn environment_parse_ignores_case_and_whitespace() {
    assert_eq!(Environment::from_str("local"), Ok(Environment::Local));
    assert_eq!(Environment::from_str("LOCAL"), Ok(Environment::Local));
    assert_eq!(
        Environment::from_str("  Production\n"),
        Ok(Environment::Production)
    );
    assert_eq!(
        Environment::from_str("\u{a0}production\u{3000}"),
        Ok(Environment::Production)
    );
}

#[test]
fn environment_name_parses_back() {
    for e in [Environment::Local, Environment::Production] {
        assert_eq!(Environment::from_str(e.as_str()), Ok(e));
    }
}

#[test]
fn unknown_environment_carries_the_normalized_name() {
    assert_eq!(
        Environment::from_str(" Staging "),
        Err(AppConfigError::UnknownEnvironment(String::from("staging")))
    );
    assert_eq!(
        Environment::from_normalized("Local"),
        Err(AppConfigError::UnknownEnvironment(String::from("Local")))
    );
}

#[test]
fn environment_from_env_defaults_to_local() {
    assert_eq!(Environment::from_env(None), Ok(Environment::Local));
    assert_eq!(
        Environment::from_env(Some(String::from("production"))),
        Ok(Environment::Production)
    );
    assert!(Environment::from_env(Some(String::from("prod"))).is_err());
}

#[test]
fn config_dir_prefers_the_variable() {
    assert_eq!(
        AppConfig::config_dir(Some(String::from("/etc/tickets")), "/src/app"),
        "/etc/tickets"
    );
    assert_eq!(
        AppConfig::config_dir(None, "/src/app"),
        "/src/app/configuration"
    );
    assert_eq!(
        AppConfig::config_dir(None, "/src/app/"),
        "/src/app/configuration"
    );
}

#[test]
fn plan_layers_base_then_environment_file() {
    let plan = AppConfig::plan(Some(String::from("Production")), None, "/srv").unwrap();
    assert_eq!(plan.environment, Environment::Production);
    assert_eq!(plan.dir, "/srv/configuration");
    assert_eq!(plan.base_file, "/srv/configuration/base.yaml");
    assert_eq!(plan.environment_file, "/srv/configuration/production.yaml");

    let plan = AppConfig::plan(None, Some(String::from("conf")), "/srv").unwrap();
    assert_eq!(plan.environment, Environment::Local);
    assert_eq!(plan.base_file, "conf/base.yaml");
    assert_eq!(plan.environment_file, "conf/local.yaml");
}

#[test]
fn plan_fails_on_unknown_environment() {
    assert_eq!(
        AppConfig::plan(Some(String::from("qa")), None, "/srv").unwrap_err(),
        AppConfigError::UnknownEnvironment(String::from("qa"))
    );
}

#[test]
fn load_keeps_the_planned_environment() {
    let plan = AppConfig::plan(Some(String::from("production")), None, "/srv").unwrap();
    let settings = Settings {
        server: ServerConfig::new(String::from("127.0.0.1"), 8080),
        telemetry: TelemetryConfig::new(String::from("info")),
    };
    let config = AppConfig::load(plan, Ok(settings)).unwrap();
    assert_eq!(config.environment(), Environment::Production);
    assert_eq!(config.server().address(), "127.0.0.1:8080");
    assert_eq!(config.server().port(), 8080);
    assert_eq!(config.log_filter(), "info");
}

#[test]
fn load_reports_the_directory() {
    let plan = AppConfig::plan(None, Some(String::from("/cfg")), "/srv").unwrap();
    assert_eq!(
        AppConfig::load(plan, Err(ConfigFailure::Unreadable(String::from("no file")))).unwrap_err(),
        AppConfigError::Unreadable {
            dir: String::from("/cfg"),
            source: String::from("no file")
        }
    );
    let plan = AppConfig::plan(None, Some(String::from("/cfg")), "/srv").unwrap();
    assert_eq!(
        AppConfig::load(plan, Err(ConfigFailure::Invalid(String::from("bad port")))).unwrap_err(),
        AppConfigError::Invalid {
            dir: String::from("/cfg"),
            source: String::from("bad port")
        }
    );
}

#[test]
fn server_address_joins_host_and_port() {
    assert_eq!(ServerConfig::new(String::from("0.0.0.0"), 0).address(), "0.0.0.0:0");
    assert_eq!(
        ServerConfig::new(String::from("localhost"), 65535).address(),
        "localhost:65535"
    );
}

#[test]
fn config_error_texts() {
    assert_eq!(
        AppConfigError::UnknownEnvironment(String::from("qa")).message(),
        "`qa` is not a known environment (expected `local` or `production`)"
    );
    assert_eq!(
        AppConfigError::Unreadable {
            dir: String::from("/cfg"),
            source: String::from("x")
        }
        .message(),
        "could not read configuration from `/cfg`"
    );
    assert_eq!(
        AppConfigError::Invalid {
            dir: String::from("/cfg"),
            source: String::from("x")
        }
        .message(),
        "configuration is invalid (check `/cfg` and `APP_*` env vars)"
    );
}

#[test]
fn environment_parses_through_from_str_trait() {
    assert_eq!(" Local ".parse::<Environment>(), Ok(Environment::Local));
    assert!("nowhere".parse::<Environment>().is_err());
}

#[test]
fn config_dir_variable_is_no_setting() {
    assert!(!AppConfig::is_setting_variable("APP_CONFIG_DIR"));
    assert!(AppConfig::is_setting_variable("APP_SERVER__PORT"));
    assert!(AppConfig::is_setting_variable("APP_ENVIRONMENT"));
}
