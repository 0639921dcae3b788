//! Derivation of database connection options from the database settings.
//!
//! The derivation is pure: it copies the connection parameters and decides
//! the transport-security mode. Requiring encrypted transport maps to the
//! strict `Require` mode; not requiring it maps to the permissive `Prefer`
//! mode, never to a mode that disables encryption, so a minimum security
//! floor holds whatever the configuration says.

use vstd::prelude::*;

use sqlx::ConnectOptions;

use crate::settings::DatabaseSettings;

verus! {

/// The transport-security mode of a database connection, mirroring the modes
/// the database client distinguishes.
#[derive(Clone, Copy, PartialEq, Eq, Structural, Debug)]
pub enum SslMode {
    Disable,
    Allow,
    Prefer,
    Require,
    VerifyCa,
    VerifyFull,
}

/// The connection parameters handed to the database client: a structured
/// bundle whose construction establishes no connection.
#[derive(Debug, Clone, PartialEq, Eq)]
pub struct ConnectionOptions {
    pub host: String,
    pub username: String,
    pub password: String,
    pub port: u16,
    pub database_name: String,
    pub ssl_mode: SslMode,
}

impl DatabaseSettings {
    /// Derives the connection options: every parameter is copied from the
    /// settings, and the transport mode is `Require` exactly when encrypted
    /// transport is required, `Prefer` otherwise — never `Disable`.
    pub fn connect_options(&self) -> (r: ConnectionOptions)
        ensures
            r.host@ == self.host@,
            r.username@ == self.username@,
            r.password@ == self.password@,
            r.port == self.port,
            r.database_name@ == self.database_name@,
            r.ssl_mode == (if self.require_ssl {
                SslMode::Require
            } else {
                SslMode::Prefer
            }),
            r.ssl_mode == SslMode::Require || r.ssl_mode == SslMode::Prefer,
    {
        let ssl_mode = if self.require_ssl {
            SslMode::Require
        } else {
            SslMode::Prefer
        };
        ConnectionOptions {
            host: self.host.clone(),
            username: self.username.clone(),
            password: self.password.clone(),
            port: self.port,
            database_name: self.database_name.clone(),
            ssl_mode,
        }
    }

    /// Builds the database client's connection options from these settings:
    /// the client value carries exactly these connection parameters, its
    /// transport mode is `Require` exactly when encrypted transport is
    /// required and `Prefer` otherwise — never `Disable` — and verbose
    /// statement logging is enabled on it.
    pub fn connect_to_db(&self) -> (r: sqlx::postgres::PgConnectOptions)
        ensures
            pg_host_of(r) == self.host@,
            pg_username_of(r) == self.username@,
            pg_password_of(r) == self.password@,
            pg_port_of(r) == self.port,
            pg_database_of(r) == self.database_name@,
            pg_mode_view(pg_ssl_of(r)) == (if self.require_ssl {
                SslMode::Require
            } else {
                SslMode::Prefer
            }),
            pg_mode_view(pg_ssl_of(r)) != SslMode::Disable,
            pg_logs_statements_at_trace(r),
    {
        let o = self.connect_options();
        let ssl = pg_ssl_mode_of(&o.ssl_mode);
        pg_options_of(&o, ssl)
    }
}

/// Declares the database client's opaque connection-options value.
#[verifier::external_type_specification]
#[verifier::external_body]
pub struct ExPgConnectOptions(sqlx::postgres::PgConnectOptions);

/// Declares the database client's transport-security mode.
#[verifier::external_type_specification]
#[verifier::external_body]
pub struct ExPgSslMode(sqlx::postgres::PgSslMode);

/// The library's transport mode a client mode stands for; the client's
/// modes mirror the library's one to one.
pub uninterp spec fn pg_mode_view(m: sqlx::postgres::PgSslMode) -> SslMode;

/// The transport mode a client options value carries.
pub uninterp spec fn pg_ssl_of(o: sqlx::postgres::PgConnectOptions) -> sqlx::postgres::PgSslMode;

/// The host a client options value carries.
pub uninterp spec fn pg_host_of(o: sqlx::postgres::PgConnectOptions) -> Seq<char>;

/// The username a client options value carries.
pub uninterp spec fn pg_username_of(o: sqlx::postgres::PgConnectOptions) -> Seq<char>;

/// The password a client options value carries.
pub uninterp spec fn pg_password_of(o: sqlx::postgres::PgConnectOptions) -> Seq<char>;

/// The port a client options value carries.
pub uninterp spec fn pg_port_of(o: sqlx::postgres::PgConnectOptions) -> u16;

/// The database name a client options value carries.
pub uninterp spec fn pg_database_of(o: sqlx::postgres::PgConnectOptions) -> Seq<char>;

/// Whether a client options value logs executed statements at the trace
/// level.
pub uninterp spec fn pg_logs_statements_at_trace(o: sqlx::postgres::PgConnectOptions) -> bool;

/// Relies on `PgSslMode`'s variants: each transport mode maps to the
/// client's mode of the same name.
#[verifier::external_body]
fn pg_ssl_mode_of(m: &SslMode) -> (r: sqlx::postgres::PgSslMode)
    ensures
        pg_mode_view(r) == *m,
{
    match m {
        SslMode::Disable => sqlx::postgres::PgSslMode::Disable,
        SslMode::Allow => sqlx::postgres::PgSslMode::Allow,
        SslMode::Prefer => sqlx::postgres::PgSslMode::Prefer,
        SslMode::Require => sqlx::postgres::PgSslMode::Require,
        SslMode::VerifyCa => sqlx::postgres::PgSslMode::VerifyCa,
        SslMode::VerifyFull => sqlx::postgres::PgSslMode::VerifyFull,
    }
}

/// Relies on `PgConnectOptions::new` and its builder methods `host`,
/// `username`, `password`, `port`, `ssl_mode` and `database`, each of which
/// sets the named parameter on the returned value, and on
/// `ConnectOptions::log_statements`, which sets the statement-logging level.
#[verifier::external_body]
fn pg_options_of(o: &ConnectionOptions, ssl: sqlx::postgres::PgSslMode) -> (r:
    sqlx::postgres::PgConnectOptions)
    ensures
        pg_host_of(r) == o.host@,
        pg_username_of(r) == o.username@,
        pg_password_of(r) == o.password@,
        pg_port_of(r) == o.port,
        pg_database_of(r) == o.database_name@,
        pg_ssl_of(r) == ssl,
        pg_logs_statements_at_trace(r),
{
    let options = sqlx::postgres::PgConnectOptions::new()
        .host(&o.host)
        .username(&o.username)
        .password(&o.password)
        .port(o.port)
        .ssl_mode(ssl)
        .database(&o.database_name);
    options.log_statements(tracing::log::LevelFilter::Trace)
}

} // verus!
