//! Layered configuration resolver.
//!
//! Merges configuration from a base file, an environment-specific file and
//! environment-variable overrides into one typed settings value, and derives
//! connection options for a relational database from it.

pub mod coerce;
pub mod database;
pub mod environment;
pub mod envsource;
pub mod errors;
pub mod loader;
pub mod settings;
pub mod text;
pub mod values;
pub mod yaml;

pub use environment::Environment;
pub use errors::SettingsError;
pub use settings::ApplicationSettings;
pub use settings::DatabaseSettings;
pub use settings::RedisSettings;
pub use settings::Settings;
