use cloudcafe::configuration::{
    environment_filename, environment_or_default, ApplicationSettings, DatabaseSettings,
    Environment, Settings, SslMode,
};

fn database(require_ssl: bool) -> DatabaseSettings {
    DatabaseSettings {
        username: "postgres".to_string(),
        password: "password".to_string(),
        host: "127.0.0.1".to_string(),
        port: 5432,
        database_name: "newsletter".to_string(),
        require_ssl,
    }
}

#[test]
fn environments_go_by_their_names() {
    assert_eq!(Environment::Development.as_str(), "development");
    assert_eq!(Environment::Production.as_str(), "production");
}

#[test]
fn environment_is_parsed_from_its_name() {
    assert_eq!(Environment::try_from("production".to_string()), Ok(Environment::Production));
    assert_eq!(Environment::try_from("development".to_string()), Ok(Environment::Development));
    for environment in [Environment::Development, Environment::Production] {
        assert_eq!(Environment::try_from(environment.as_str().to_string()), Ok(environment));
    }
}

#[test]
fn unknown_environment_is_quoted_in_the_message() {
    assert_eq!(
        Environment::try_from("staging".to_string()),
        Err("staging is not a supported environment.".to_string())
    );
    assert_eq!(
        Environment::try_from("Production".to_string()),
        Err("Production is not a supported environment.".to_string())
    );
    assert_eq!(
        Environment::try_from("".to_string()),
        Err(" is not a supported environment.".to_string())
    );
}

#[test]
fn environment_defaults_to_development() {
    assert_eq!(environment_or_default(None), Ok(Environment::Development));
    assert_eq!(
        environment_or_default(Some("production".to_string())),
        Ok(Environment::Production)
    );
    assert_eq!(
        environment_or_default(Some("development".to_string())),
        Ok(Environment::Development)
    );
    assert_eq!(
        environment_or_default(Some("test".to_string())),
        Err("test is not a supported environment.".to_string())
    );
}

#[test]
fn environment_file_is_named_after_the_environment() {
    assert_eq!(environment_filename(&Environment::Development), "development.yaml");
    assert_eq!(environment_filename(&Environment::Production), "production.yaml");
}

#[test]
fn server_options_choose_no_database() {
    let options = database(false).without_db();
    assert_eq!(options.username, "postgres");
    assert_eq!(options.password, "password");
    assert_eq!(options.host, "127.0.0.1");
    assert_eq!(options.port, 5432);
    assert_eq!(options.ssl_mode, SslMode::Prefer);
    assert_eq!(options.database, None);
    assert!(!options.trace_statements);
}

#[test]
fn database_options_choose_the_database_and_trace() {
    let options = database(true).with_db();
    assert_eq!(options.username, "postgres");
    assert_eq!(options.password, "password");
    assert_eq!(options.host, "127.0.0.1");
    assert_eq!(options.port, 5432);
    assert_eq!(options.ssl_mode, SslMode::Require);
    assert_eq!(options.database, Some("newsletter".to_string()));
    assert!(options.trace_statements);
}

#[test]
fn ssl_is_required_only_on_demand() {
    assert_eq!(database(true).without_db().ssl_mode, SslMode::Require);
    assert_eq!(database(false).without_db().ssl_mode, SslMode::Prefer);
    assert_eq!(database(false).with_db().ssl_mode, SslMode::Prefer);
}

#[test]
fn settings_hold_both_parts() {
    let settings = Settings {
        database: database(false),
        application: ApplicationSettings { port: 0, host: "127.0.0.1".to_string() },
    };
    assert_eq!(settings.application.port, 0);
    assert_eq!(settings.application.host, "127.0.0.1");
    assert_eq!(settings.database.with_db().database, Some("newsletter".to_string()));
}
