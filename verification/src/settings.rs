//! The typed settings structures and the resolution of merged sources into
//! them.
//!
//! Every field is required: a field absent from every source fails resolution
//! with a missing-field error naming the field's dotted path, and a field
//! whose value cannot be coerced to the declared type fails it with a
//! type-mismatch error. No partial settings value is ever produced.

use vstd::prelude::*;

use crate::coerce::as_bool_v;
use crate::coerce::as_str_v;
use crate::coerce::as_u16_v;
use crate::coerce::as_u64_v;
use crate::coerce::coerce_bool;
use crate::coerce::coerce_string;
use crate::coerce::coerce_u16;
use crate::coerce::coerce_u64;
use crate::errors::SettingsError;
use crate::values::Entry;
use crate::values::SourceV;
use crate::values::entry_views;
use crate::values::lookup;
use crate::values::lookup_entry;
use crate::values::opt_entry;

verus! {

/// Network-facing identity of the service.
#[derive(Debug, Clone, PartialEq, Eq)]
pub struct ApplicationSettings {
    pub port: u16,
    pub host: String,
    pub base_url: String,
    pub protocol: String,
}

/// Database connection parameters.
#[derive(Debug, Clone, PartialEq, Eq)]
pub struct DatabaseSettings {
    pub username: String,
    pub password: String,
    pub port: u16,
    pub host: String,
    pub database_name: String,
    pub require_ssl: bool,
}

/// Cache connection URI and pool tuning knobs.
#[derive(Debug, Clone, PartialEq, Eq)]
pub struct RedisSettings {
    pub uri: String,
    pub pool_max_open: u64,
    pub pool_max_idle: u64,
    pub pool_timeout_seconds: u64,
    pub pool_expire_seconds: u64,
}

/// Root configuration: every preconfigured variable of the application.
#[derive(Debug, Clone, PartialEq, Eq)]
pub struct Settings {
    pub application: ApplicationSettings,
    pub debug: bool,
    pub database: DatabaseSettings,
    pub redis: RedisSettings,
}

/// The mathematical model of the application settings.
pub struct ApplicationV {
    pub port: u16,
    pub host: Seq<char>,
    pub base_url: Seq<char>,
    pub protocol: Seq<char>,
}

/// The mathematical model of the database settings.
pub struct DatabaseV {
    pub username: Seq<char>,
    pub password: Seq<char>,
    pub port: u16,
    pub host: Seq<char>,
    pub database_name: Seq<char>,
    pub require_ssl: bool,
}

/// The mathematical model of the cache settings.
pub struct RedisV {
    pub uri: Seq<char>,
    pub pool_max_open: u64,
    pub pool_max_idle: u64,
    pub pool_timeout_seconds: u64,
    pub pool_expire_seconds: u64,
}

/// The mathematical model of the root settings.
pub struct SettingsV {
    pub application: ApplicationV,
    pub debug: bool,
    pub database: DatabaseV,
    pub redis: RedisV,
}

impl View for ApplicationSettings {
    type V = ApplicationV;

    open spec fn view(&self) -> ApplicationV {
        ApplicationV {
            port: self.port,
            host: self.host@,
            base_url: self.base_url@,
            protocol: self.protocol@,
        }
    }
}

impl View for DatabaseSettings {
    type V = DatabaseV;

    open spec fn view(&self) -> DatabaseV {
        DatabaseV {
            username: self.username@,
            password: self.password@,
            port: self.port,
            host: self.host@,
            database_name: self.database_name@,
            require_ssl: self.require_ssl,
        }
    }
}

impl View for RedisSettings {
    type V = RedisV;

    open spec fn view(&self) -> RedisV {
        RedisV {
            uri: self.uri@,
            pool_max_open: self.pool_max_open,
            pool_max_idle: self.pool_max_idle,
            pool_timeout_seconds: self.pool_timeout_seconds,
            pool_expire_seconds: self.pool_expire_seconds,
        }
    }
}

impl View for Settings {
    type V = SettingsV;

    open spec fn view(&self) -> SettingsV {
        SettingsV {
            application: self.application@,
            debug: self.debug,
            database: self.database@,
            redis: self.redis@,
        }
    }
}

/// The outcome of resolving merged sources: a settings model, or the first
/// fault in field order.
pub enum Resolution {
    Resolved(SettingsV),
    MissingField(Seq<char>),
    TypeMismatch(Seq<char>),
}

/// The required field paths, in the order resolution checks them.
pub open spec fn required_paths() -> Seq<Seq<char>> {
    seq![
        "application.port"@,
        "application.host"@,
        "application.base_url"@,
        "application.protocol"@,
        "debug"@,
        "database.username"@,
        "database.password"@,
        "database.port"@,
        "database.host"@,
        "database.database_name"@,
        "database.require_ssl"@,
        "redis.uri"@,
        "redis.pool_max_open"@,
        "redis.pool_max_idle"@,
        "redis.pool_timeout_seconds"@,
        "redis.pool_expire_seconds"@,
    ]
}

/// The entries one source contributes to resolution: the value of each
/// required field path it binds, in field order.
pub open spec fn extracted(src: SourceV) -> SourceV {
    opt_entry(src, "application.port"@) + opt_entry(src, "application.host"@) + opt_entry(
        src,
        "application.base_url"@,
    ) + opt_entry(src, "application.protocol"@) + opt_entry(src, "debug"@) + opt_entry(
        src,
        "database.username"@,
    ) + opt_entry(src, "database.password"@) + opt_entry(src, "database.port"@) + opt_entry(
        src,
        "database.host"@,
    ) + opt_entry(src, "database.database_name"@) + opt_entry(src, "database.require_ssl"@)
        + opt_entry(src, "redis.uri"@) + opt_entry(src, "redis.pool_max_open"@) + opt_entry(
        src,
        "redis.pool_max_idle"@,
    ) + opt_entry(src, "redis.pool_timeout_seconds"@) + opt_entry(src, "redis.pool_expire_seconds"@)
}

/// The required field at a path, as an unsigned 16-bit integer.
pub open spec fn req_u16(src: SourceV, path: Seq<char>) -> Result<u16, Resolution> {
    match lookup(src, path) {
        None => Err(Resolution::MissingField(path)),
        Some(v) => match as_u16_v(v) {
            None => Err(Resolution::TypeMismatch(path)),
            Some(x) => Ok(x),
        },
    }
}

/// The required field at a path, as an unsigned 64-bit integer.
pub open spec fn req_u64(src: SourceV, path: Seq<char>) -> Result<u64, Resolution> {
    match lookup(src, path) {
        None => Err(Resolution::MissingField(path)),
        Some(v) => match as_u64_v(v) {
            None => Err(Resolution::TypeMismatch(path)),
            Some(x) => Ok(x),
        },
    }
}

/// The required field at a path, as a boolean.
pub open spec fn req_bool(src: SourceV, path: Seq<char>) -> Result<bool, Resolution> {
    match lookup(src, path) {
        None => Err(Resolution::MissingField(path)),
        Some(v) => match as_bool_v(v) {
            None => Err(Resolution::TypeMismatch(path)),
            Some(x) => Ok(x),
        },
    }
}

/// The required field at a path, as text.
pub open spec fn req_str(src: SourceV, path: Seq<char>) -> Result<Seq<char>, Resolution> {
    match lookup(src, path) {
        None => Err(Resolution::MissingField(path)),
        Some(v) => match as_str_v(v) {
            None => Err(Resolution::TypeMismatch(path)),
            Some(x) => Ok(x),
        },
    }
}

/// Resolves merged sources into the settings model: every required field is
/// read and coerced, and the first fault in field order decides the error.
pub open spec fn resolve(src: SourceV) -> Resolution {
    match req_u16(src, "application.port"@) {
        Err(e) => e,
        Ok(app_port) => match req_str(src, "application.host"@) {
            Err(e) => e,
            Ok(app_host) => match req_str(src, "application.base_url"@) {
                Err(e) => e,
                Ok(app_base_url) => match req_str(src, "application.protocol"@) {
                    Err(e) => e,
                    Ok(app_protocol) => match req_bool(src, "debug"@) {
                        Err(e) => e,
                        Ok(debug) => match req_str(src, "database.username"@) {
                            Err(e) => e,
                            Ok(db_username) => match req_str(src, "database.password"@) {
                                Err(e) => e,
                                Ok(db_password) => match req_u16(src, "database.port"@) {
                                    Err(e) => e,
                                    Ok(db_port) => match req_str(src, "database.host"@) {
                                        Err(e) => e,
                                        Ok(db_host) => match req_str(
                                            src,
                                            "database.database_name"@,
                                        ) {
                                            Err(e) => e,
                                            Ok(db_name) => match req_bool(
                                                src,
                                                "database.require_ssl"@,
                                            ) {
                                                Err(e) => e,
                                                Ok(db_ssl) => match req_str(src, "redis.uri"@) {
                                                    Err(e) => e,
                                                    Ok(redis_uri) => match req_u64(
                                                        src,
                                                        "redis.pool_max_open"@,
                                                    ) {
                                                        Err(e) => e,
                                                        Ok(pool_max_open) => match req_u64(
                                                            src,
                                                            "redis.pool_max_idle"@,
                                                        ) {
                                                            Err(e) => e,
                                                            Ok(pool_max_idle) => match req_u64(
                                                                src,
                                                                "redis.pool_timeout_seconds"@,
                                                            ) {
                                                                Err(e) => e,
                                                                Ok(pool_timeout) => match req_u64(
                                                                    src,
                                                                    "redis.pool_expire_seconds"@,
                                                                ) {
                                                                    Err(e) => e,
                                                                    Ok(pool_expire) => Resolution::Resolved(
                                                                        SettingsV {
                                                                            application: ApplicationV {
                                                                                port: app_port,
                                                                                host: app_host,
                                                                                base_url: app_base_url,
                                                                                protocol: app_protocol,
                                                                            },
                                                                            debug: debug,
                                                                            database: DatabaseV {
                                                                                username: db_username,
                                                                                password: db_password,
                                                                                port: db_port,
                                                                                host: db_host,
                                                                                database_name: db_name,
                                                                                require_ssl: db_ssl,
                                                                            },
                                                                            redis: RedisV {
                                                                                uri: redis_uri,
                                                                                pool_max_open: pool_max_open,
                                                                                pool_max_idle: pool_max_idle,
                                                                                pool_timeout_seconds: pool_timeout,
                                                                                pool_expire_seconds: pool_expire,
                                                                            },
                                                                        },
                                                                    ),
                                                                },
                                                            },
                                                        },
                                                    },
                                                },
                                            },
                                        },
                                    },
                                },
                            },
                        },
                    },
                },
            },
        },
    }
}

/// Reads a required unsigned 16-bit field from the merged entries.
fn get_u16(entries: &Vec<Entry>, path: &str) -> (r: Result<u16, SettingsError>)
    ensures
        match r {
            Ok(x) => req_u16(entry_views(entries@), path@) == Ok::<u16, Resolution>(x),
            Err(SettingsError::MissingField(p)) => p@ == path@ && req_u16(
                entry_views(entries@),
                path@,
            ) == Err::<u16, Resolution>(Resolution::MissingField(path@)),
            Err(SettingsError::TypeMismatch(p)) => p@ == path@ && req_u16(
                entry_views(entries@),
                path@,
            ) == Err::<u16, Resolution>(Resolution::TypeMismatch(path@)),
            Err(_) => false,
        },
{
    match lookup_entry(entries, path) {
        None => Err(SettingsError::MissingField(path.to_owned())),
        Some(v) => match coerce_u16(v) {
            None => Err(SettingsError::TypeMismatch(path.to_owned())),
            Some(x) => Ok(x),
        },
    }
}

/// Reads a required unsigned 64-bit field from the merged entries.
fn get_u64(entries: &Vec<Entry>, path: &str) -> (r: Result<u64, SettingsError>)
    ensures
        match r {
            Ok(x) => req_u64(entry_views(entries@), path@) == Ok::<u64, Resolution>(x),
            Err(SettingsError::MissingField(p)) => p@ == path@ && req_u64(
                entry_views(entries@),
                path@,
            ) == Err::<u64, Resolution>(Resolution::MissingField(path@)),
            Err(SettingsError::TypeMismatch(p)) => p@ == path@ && req_u64(
                entry_views(entries@),
                path@,
            ) == Err::<u64, Resolution>(Resolution::TypeMismatch(path@)),
            Err(_) => false,
        },
{
    match lookup_entry(entries, path) {
        None => Err(SettingsError::MissingField(path.to_owned())),
        Some(v) => match coerce_u64(v) {
            None => Err(SettingsError::TypeMismatch(path.to_owned())),
            Some(x) => Ok(x),
        },
    }
}

/// Reads a required boolean field from the merged entries.
fn get_bool(entries: &Vec<Entry>, path: &str) -> (r: Result<bool, SettingsError>)
    ensures
        match r {
            Ok(x) => req_bool(entry_views(entries@), path@) == Ok::<bool, Resolution>(x),
            Err(SettingsError::MissingField(p)) => p@ == path@ && req_bool(
                entry_views(entries@),
                path@,
            ) == Err::<bool, Resolution>(Resolution::MissingField(path@)),
            Err(SettingsError::TypeMismatch(p)) => p@ == path@ && req_bool(
                entry_views(entries@),
                path@,
            ) == Err::<bool, Resolution>(Resolution::TypeMismatch(path@)),
            Err(_) => false,
        },
{
    match lookup_entry(entries, path) {
        None => Err(SettingsError::MissingField(path.to_owned())),
        Some(v) => match coerce_bool(v) {
            None => Err(SettingsError::TypeMismatch(path.to_owned())),
            Some(x) => Ok(x),
        },
    }
}

/// Reads a required textual field from the merged entries.
fn get_string(entries: &Vec<Entry>, path: &str) -> (r: Result<String, SettingsError>)
    ensures
        match r {
            Ok(x) => req_str(entry_views(entries@), path@) == Ok::<Seq<char>, Resolution>(x@),
            Err(SettingsError::MissingField(p)) => p@ == path@ && req_str(
                entry_views(entries@),
                path@,
            ) == Err::<Seq<char>, Resolution>(Resolution::MissingField(path@)),
            Err(SettingsError::TypeMismatch(p)) => p@ == path@ && req_str(
                entry_views(entries@),
                path@,
            ) == Err::<Seq<char>, Resolution>(Resolution::TypeMismatch(path@)),
            Err(_) => false,
        },
{
    match lookup_entry(entries, path) {
        None => Err(SettingsError::MissingField(path.to_owned())),
        Some(v) => match coerce_string(v) {
            None => Err(SettingsError::TypeMismatch(path.to_owned())),
            Some(x) => Ok(x),
        },
    }
}

/// Resolves merged entries into the typed settings value, exactly as the
/// resolution model prescribes: the settings on success, the first fault in
/// field order otherwise.
pub fn settings_from_entries(entries: &Vec<Entry>) -> (r: Result<Settings, SettingsError>)
    ensures
        match r {
            Ok(s) => resolve(entry_views(entries@)) == Resolution::Resolved(s@),
            Err(SettingsError::MissingField(p)) => resolve(entry_views(entries@))
                == Resolution::MissingField(p@),
            Err(SettingsError::TypeMismatch(p)) => resolve(entry_views(entries@))
                == Resolution::TypeMismatch(p@),
            Err(_) => false,
        },
{
    let app_port = match get_u16(entries, "application.port") {
        Ok(x) => x,
        Err(e) => return Err(e),
    };
    let app_host = match get_string(entries, "application.host") {
        Ok(x) => x,
        Err(e) => return Err(e),
    };
    let app_base_url = match get_string(entries, "application.base_url") {
        Ok(x) => x,
        Err(e) => return Err(e),
    };
    let app_protocol = match get_string(entries, "application.protocol") {
        Ok(x) => x,
        Err(e) => return Err(e),
    };
    let debug = match get_bool(entries, "debug") {
        Ok(x) => x,
        Err(e) => return Err(e),
    };
    let db_username = match get_string(entries, "database.username") {
        Ok(x) => x,
        Err(e) => return Err(e),
    };
    let db_password = match get_string(entries, "database.password") {
        Ok(x) => x,
        Err(e) => return Err(e),
    };
    let db_port = match get_u16(entries, "database.port") {
        Ok(x) => x,
        Err(e) => return Err(e),
    };
    let db_host = match get_string(entries, "database.host") {
        Ok(x) => x,
        Err(e) => return Err(e),
    };
    let db_name = match get_string(entries, "database.database_name") {
        Ok(x) => x,
        Err(e) => return Err(e),
    };
    let db_ssl = match get_bool(entries, "database.require_ssl") {
        Ok(x) => x,
        Err(e) => return Err(e),
    };
    let redis_uri = match get_string(entries, "redis.uri") {
        Ok(x) => x,
        Err(e) => return Err(e),
    };
    let pool_max_open = match get_u64(entries, "redis.pool_max_open") {
        Ok(x) => x,
        Err(e) => return Err(e),
    };
    let pool_max_idle = match get_u64(entries, "redis.pool_max_idle") {
        Ok(x) => x,
        Err(e) => return Err(e),
    };
    let pool_timeout = match get_u64(entries, "redis.pool_timeout_seconds") {
        Ok(x) => x,
        Err(e) => return Err(e),
    };
    let pool_expire = match get_u64(entries, "redis.pool_expire_seconds") {
        Ok(x) => x,
        Err(e) => return Err(e),
    };
    Ok(
        Settings {
            application: ApplicationSettings {
                port: app_port,
                host: app_host,
                base_url: app_base_url,
                protocol: app_protocol,
            },
            debug,
            database: DatabaseSettings {
                username: db_username,
                password: db_password,
                port: db_port,
                host: db_host,
                database_name: db_name,
                require_ssl: db_ssl,
            },
            redis: RedisSettings {
                uri: redis_uri,
                pool_max_open,
                pool_max_idle,
                pool_timeout_seconds: pool_timeout,
                pool_expire_seconds: pool_expire,
            },
        },
    )
}

/// A required field absent from every source makes resolution fail: no
/// settings model is produced.
pub proof fn lemma_missing_required_field_fails(src: SourceV, i: int)
    requires
        0 <= i < required_paths().len(),
        lookup(src, required_paths()[i]) is None,
    ensures
        !(resolve(src) is Resolved),
{
}

/// Whether resolution finds no fault in the required field at an index of
/// the checking order: the field is bound and its value coerces to the
/// field's declared type.
pub open spec fn field_ok(src: SourceV, j: int) -> bool {
    if j == 0 {
        req_u16(src, "application.port"@) is Ok
    } else if j == 1 {
        req_str(src, "application.host"@) is Ok
    } else if j == 2 {
        req_str(src, "application.base_url"@) is Ok
    } else if j == 3 {
        req_str(src, "application.protocol"@) is Ok
    } else if j == 4 {
        req_bool(src, "debug"@) is Ok
    } else if j == 5 {
        req_str(src, "database.username"@) is Ok
    } else if j == 6 {
        req_str(src, "database.password"@) is Ok
    } else if j == 7 {
        req_u16(src, "database.port"@) is Ok
    } else if j == 8 {
        req_str(src, "database.host"@) is Ok
    } else if j == 9 {
        req_str(src, "database.database_name"@) is Ok
    } else if j == 10 {
        req_bool(src, "database.require_ssl"@) is Ok
    } else if j == 11 {
        req_str(src, "redis.uri"@) is Ok
    } else if j == 12 {
        req_u64(src, "redis.pool_max_open"@) is Ok
    } else if j == 13 {
        req_u64(src, "redis.pool_max_idle"@) is Ok
    } else if j == 14 {
        req_u64(src, "redis.pool_timeout_seconds"@) is Ok
    } else if j == 15 {
        req_u64(src, "redis.pool_expire_seconds"@) is Ok
    } else {
        true
    }
}

/// Omitting one required field while every field before it in the checking
/// order is present and well typed fails resolution with a missing-field
/// error naming exactly that field's path.
pub proof fn lemma_first_missing_field_is_named(src: SourceV, i: int)
    requires
        0 <= i < required_paths().len(),
        lookup(src, required_paths()[i]) is None,
        forall|j: int| 0 <= j < i ==> field_ok(src, j),
    ensures
        resolve(src) == Resolution::MissingField(required_paths()[i]),
{
    if 0 < i {
        assert(field_ok(src, 0));
    }
    if 1 < i {
        assert(field_ok(src, 1));
    }
    if 2 < i {
        assert(field_ok(src, 2));
    }
    if 3 < i {
        assert(field_ok(src, 3));
    }
    if 4 < i {
        assert(field_ok(src, 4));
    }
    if 5 < i {
        assert(field_ok(src, 5));
    }
    if 6 < i {
        assert(field_ok(src, 6));
    }
    if 7 < i {
        assert(field_ok(src, 7));
    }
    if 8 < i {
        assert(field_ok(src, 8));
    }
    if 9 < i {
        assert(field_ok(src, 9));
    }
    if 10 < i {
        assert(field_ok(src, 10));
    }
    if 11 < i {
        assert(field_ok(src, 11));
    }
    if 12 < i {
        assert(field_ok(src, 12));
    }
    if 13 < i {
        assert(field_ok(src, 13));
    }
    if 14 < i {
        assert(field_ok(src, 14));
    }
}

/// A missing-field failure identifies a real omission: the path it names is
/// a required path that no source binds.
pub proof fn lemma_missing_field_error_is_honest(src: SourceV)
    ensures
        match resolve(src) {
            Resolution::MissingField(p) => required_paths().contains(p) && lookup(src, p) is None,
            _ => true,
        },
{
    if let Resolution::MissingField(p) = resolve(src) {
        let ps = required_paths();
        if p == ps[0] {
            assert(ps.contains(p));
        } else if p == ps[1] {
            assert(ps.contains(p));
        } else if p == ps[2] {
            assert(ps.contains(p));
        } else if p == ps[3] {
            assert(ps.contains(p));
        } else if p == ps[4] {
            assert(ps.contains(p));
        } else if p == ps[5] {
            assert(ps.contains(p));
        } else if p == ps[6] {
            assert(ps.contains(p));
        } else if p == ps[7] {
            assert(ps.contains(p));
        } else if p == ps[8] {
            assert(ps.contains(p));
        } else if p == ps[9] {
            assert(ps.contains(p));
        } else if p == ps[10] {
            assert(ps.contains(p));
        } else if p == ps[11] {
            assert(ps.contains(p));
        } else if p == ps[12] {
            assert(ps.contains(p));
        } else if p == ps[13] {
            assert(ps.contains(p));
        } else if p == ps[14] {
            assert(ps.contains(p));
        } else {
            assert(p == ps[15]);
            assert(ps.contains(p));
        }
    }
}

} // verus!
