use settings_resolver::Environment;
use settings_resolver::SettingsError;
use settings_resolver::loader::get_settings;
use settings_resolver::loader::resolve_environment;

fn base_yaml() -> &'static str {
    "application:
  port: 8000
  host: 127.0.0.1
  base_url: http://127.0.0.1
  protocol: http
debug: false
database:
  username: postgres
  password: password
  port: 5432
  host: localhost
  database_name: newsletter
  require_ssl: false
redis:
  uri: redis://127.0.0.1:6379
  pool_max_open: 16
  pool_max_idle: 8
  pool_timeout_seconds: 1
  pool_expire_seconds: 60
"
}

fn overlay_yaml() -> &'static str {
    "application:
  port: 9000
"
}

fn pairs(list: &[(&str, &str)]) -> Vec<(String, String)> {
    list.iter().map(|(k, v)| (k.to_string(), v.to_string())).collect()
}

#[test]
fn environment_tokens_resolve_case_insensitively() {
    assert!(matches!(
        Environment::try_from("development".to_string()),
        Ok(Environment::Development)
    ));
    assert!(matches!(
        Environment::try_from("DEVELOPMENT".to_string()),
        Ok(Environment::Development)
    ));
    assert!(matches!(
        Environment::try_from("production".to_string()),
        Ok(Environment::Production)
    ));
    assert!(matches!(
        Environment::try_from("pRoDuCtIoN".to_string()),
        Ok(Environment::Production)
    ));
}

#[test]
fn unsupported_environment_token_is_rejected() {
    match Environment::try_from("staging".to_string()) {
        Err(SettingsError::UnsupportedEnvironment(v)) => assert_eq!(v, "staging"),
        other => panic!("expected UnsupportedEnvironment, got {:?}", other),
    }
    match Environment::try_from("".to_string()) {
        Err(SettingsError::UnsupportedEnvironment(v)) => assert_eq!(v, ""),
        other => panic!("expected UnsupportedEnvironment, got {:?}", other),
    }
}

#[test]
fn environment_canonical_tokens_and_filenames() {
    assert_eq!(Environment::Development.as_str(), "development");
    assert_eq!(Environment::Production.as_str(), "production");
    assert_eq!(Environment::Development.filename(), "development.yaml");
    assert_eq!(Environment::Production.filename(), "production.yaml");
}

#[test]
fn environment_defaults_to_development_when_unset() {
    assert!(matches!(
        resolve_environment(&pairs(&[("PATH", "/usr/bin")])),
        Ok(Environment::Development)
    ));
    assert!(matches!(resolve_environment(&pairs(&[])), Ok(Environment::Development)));
}

#[test]
fn environment_read_from_injected_pairs() {
    assert!(matches!(
        resolve_environment(&pairs(&[("APP_ENVIRONMENT", "production")])),
        Ok(Environment::Production)
    ));
    match resolve_environment(&pairs(&[("APP_ENVIRONMENT", "staging")])) {
        Err(SettingsError::UnsupportedEnvironment(v)) => assert_eq!(v, "staging"),
        other => panic!("expected UnsupportedEnvironment, got {:?}", other),
    }
}

#[test]
fn base_file_alone_resolves_every_field() {
    let s = get_settings(base_yaml(), "", &pairs(&[])).expect("resolution should succeed");
    assert_eq!(s.application.port, 8000);
    assert_eq!(s.application.host, "127.0.0.1");
    assert_eq!(s.application.base_url, "http://127.0.0.1");
    assert_eq!(s.application.protocol, "http");
    assert!(!s.debug);
    assert_eq!(s.database.username, "postgres");
    assert_eq!(s.database.password, "password");
    assert_eq!(s.database.port, 5432);
    assert_eq!(s.database.host, "localhost");
    assert_eq!(s.database.database_name, "newsletter");
    assert!(!s.database.require_ssl);
    assert_eq!(s.redis.uri, "redis://127.0.0.1:6379");
    assert_eq!(s.redis.pool_max_open, 16);
    assert_eq!(s.redis.pool_max_idle, 8);
    assert_eq!(s.redis.pool_timeout_seconds, 1);
    assert_eq!(s.redis.pool_expire_seconds, 60);
}

#[test]
fn environment_file_overrides_base_file() {
    let s = get_settings(base_yaml(), overlay_yaml(), &pairs(&[]))
        .expect("resolution should succeed");
    assert_eq!(s.application.port, 9000);
    assert_eq!(s.application.host, "127.0.0.1");
}

#[test]
fn environment_variable_overrides_both_files() {
    let env = pairs(&[("APP_APPLICATION__PORT", "5001")]);
    let s = get_settings(base_yaml(), overlay_yaml(), &env).expect("resolution should succeed");
    assert_eq!(s.application.port, 5001);
}

#[test]
fn environment_variable_name_is_read_case_insensitively() {
    let env = pairs(&[("app_application__port", "5001")]);
    let s = get_settings(base_yaml(), overlay_yaml(), &env).expect("resolution should succeed");
    assert_eq!(s.application.port, 5001);
}

#[test]
fn later_environment_variable_wins_over_earlier() {
    let env = pairs(&[("APP_APPLICATION__PORT", "5001"), ("APP_APPLICATION__PORT", "5002")]);
    let s = get_settings(base_yaml(), overlay_yaml(), &env).expect("resolution should succeed");
    assert_eq!(s.application.port, 5002);
}

#[test]
fn textual_overrides_are_coerced_to_field_types() {
    let env = pairs(&[
        ("APP_DEBUG", "TRUE"),
        ("APP_DATABASE__REQUIRE_SSL", "on"),
        ("APP_REDIS__POOL_MAX_OPEN", "42"),
    ]);
    let s = get_settings(base_yaml(), "", &env).expect("resolution should succeed");
    assert!(s.debug);
    assert!(s.database.require_ssl);
    assert_eq!(s.redis.pool_max_open, 42);
}

#[test]
fn numeric_value_counts_as_boolean() {
    let overlay = "debug: 1
database:
  require_ssl: 0
";
    let s = get_settings(base_yaml(), overlay, &pairs(&[])).expect("resolution should succeed");
    assert!(s.debug);
    assert!(!s.database.require_ssl);
}

#[test]
fn textual_override_may_carry_a_leading_plus_sign() {
    let env = pairs(&[("APP_APPLICATION__PORT", "+5001")]);
    let s = get_settings(base_yaml(), "", &env).expect("resolution should succeed");
    assert_eq!(s.application.port, 5001);
}

#[test]
fn override_out_of_port_range_is_a_type_mismatch() {
    let env = pairs(&[("APP_APPLICATION__PORT", "70000")]);
    match get_settings(base_yaml(), "", &env) {
        Err(SettingsError::TypeMismatch(p)) => assert_eq!(p, "application.port"),
        other => panic!("expected TypeMismatch, got {:?}", other),
    }
}

#[test]
fn override_that_is_not_a_number_is_a_type_mismatch() {
    let env = pairs(&[("APP_APPLICATION__PORT", "eighty")]);
    match get_settings(base_yaml(), "", &env) {
        Err(SettingsError::TypeMismatch(p)) => assert_eq!(p, "application.port"),
        other => panic!("expected TypeMismatch, got {:?}", other),
    }
}

#[test]
fn missing_required_field_names_its_path() {
    let incomplete = "application:
  port: 8000
  base_url: http://127.0.0.1
  protocol: http
debug: false
database:
  username: postgres
  password: password
  port: 5432
  host: localhost
  database_name: newsletter
  require_ssl: false
redis:
  uri: redis://127.0.0.1:6379
  pool_max_open: 16
  pool_max_idle: 8
  pool_timeout_seconds: 1
  pool_expire_seconds: 60
";
    match get_settings(incomplete, "", &pairs(&[])) {
        Err(SettingsError::MissingField(p)) => assert_eq!(p, "application.host"),
        other => panic!("expected MissingField, got {:?}", other),
    }
}

#[test]
fn missing_field_supplied_by_environment_variable_succeeds() {
    let incomplete = "application:
  port: 8000
  base_url: http://127.0.0.1
  protocol: http
debug: false
database:
  username: postgres
  password: password
  port: 5432
  host: localhost
  database_name: newsletter
  require_ssl: false
redis:
  uri: redis://127.0.0.1:6379
  pool_max_open: 16
  pool_max_idle: 8
  pool_timeout_seconds: 1
  pool_expire_seconds: 60
";
    let env = pairs(&[("APP_APPLICATION__HOST", "0.0.0.0")]);
    let s = get_settings(incomplete, "", &env).expect("resolution should succeed");
    assert_eq!(s.application.host, "0.0.0.0");
}

#[test]
fn field_of_unsupported_shape_is_a_type_mismatch() {
    let overlay = "application:
  port: [1, 2]
";
    match get_settings(base_yaml(), overlay, &pairs(&[])) {
        Err(SettingsError::TypeMismatch(p)) => assert_eq!(p, "application.port"),
        other => panic!("expected TypeMismatch, got {:?}", other),
    }
}

#[test]
fn unparseable_source_is_a_parse_error() {
    match get_settings("application: [", "", &pairs(&[])) {
        Err(SettingsError::SourceParse(_)) => (),
        other => panic!("expected SourceParse, got {:?}", other),
    }
}

#[test]
fn loading_identical_inputs_twice_gives_equal_settings() {
    let env = pairs(&[("APP_APPLICATION__PORT", "5001"), ("APP_DEBUG", "true")]);
    let first = get_settings(base_yaml(), overlay_yaml(), &env).expect("first load");
    let second = get_settings(base_yaml(), overlay_yaml(), &env).expect("second load");
    assert_eq!(first, second);
}

#[test]
fn names_without_the_override_prefix_are_ignored() {
    let env = pairs(&[("APPLE__PORT", "1"), ("APPLICATION__PORT", "2"), ("PORT", "3")]);
    let s = get_settings(base_yaml(), "", &env).expect("resolution should succeed");
    assert_eq!(s.application.port, 8000);
}

#[test]
fn environment_selector_pair_does_not_disturb_resolution() {
    let env = pairs(&[("APP_ENVIRONMENT", "production")]);
    let s = get_settings(base_yaml(), overlay_yaml(), &env).expect("resolution should succeed");
    assert_eq!(s.application.port, 9000);
}

#[test]
fn error_messages_name_the_fault() {
    let e = SettingsError::UnsupportedEnvironment("staging".to_string());
    assert_eq!(
        e.message(),
        "staging is not a supported environment. Use either `development` or `production`."
    );
    let m = SettingsError::MissingField("application.host".to_string());
    assert_eq!(m.message(), "missing required field `application.host`");
}
