use settings_resolver::DatabaseSettings;
use settings_resolver::database::SslMode;

fn settings(require_ssl: bool) -> DatabaseSettings {
    DatabaseSettings {
        username: "postgres".to_string(),
        password: "password".to_string(),
        port: 5432,
        host: "localhost".to_string(),
        database_name: "newsletter".to_string(),
        require_ssl,
    }
}

#[test]
fn requiring_ssl_yields_the_strict_mode() {
    let o = settings(true).connect_options();
    assert_eq!(o.ssl_mode, SslMode::Require);
}

#[test]
fn not_requiring_ssl_yields_the_permissive_mode() {
    let o = settings(false).connect_options();
    assert_eq!(o.ssl_mode, SslMode::Prefer);
}

#[test]
fn ssl_mode_is_never_disabled() {
    assert_ne!(settings(true).connect_options().ssl_mode, SslMode::Disable);
    assert_ne!(settings(false).connect_options().ssl_mode, SslMode::Disable);
}

#[test]
fn connect_options_copy_every_parameter() {
    let o = settings(true).connect_options();
    assert_eq!(o.host, "localhost");
    assert_eq!(o.username, "postgres");
    assert_eq!(o.password, "password");
    assert_eq!(o.port, 5432);
    assert_eq!(o.database_name, "newsletter");
}

#[test]
fn client_options_carry_the_derived_parameters() {
    let opts = settings(true).connect_to_db();
    assert_eq!(opts.get_host(), "localhost");
    assert_eq!(opts.get_port(), 5432);
    assert_eq!(opts.get_username(), "postgres");
    assert_eq!(opts.get_database(), Some("newsletter"));
    assert!(matches!(opts.get_ssl_mode(), sqlx::postgres::PgSslMode::Require));
}

#[test]
fn client_options_prefer_encryption_when_not_required() {
    let opts = settings(false).connect_to_db();
    assert!(matches!(opts.get_ssl_mode(), sqlx::postgres::PgSslMode::Prefer));
}
