//! The runtime environment of the application and its canonical token.

use vstd::prelude::*;

use crate::errors::SettingsError;
use crate::text::lower;
use crate::text::str_eq;
use crate::text::to_ascii_lowercase;

verus! {

/// The possible runtime environment for the application.
#[derive(Clone, Copy, PartialEq, Eq, Structural, Debug)]
pub enum Environment {
    Development,
    Production,
}

impl Environment {
    /// The canonical lowercase token of the environment.
    pub open spec fn canonical(self) -> Seq<char> {
        match self {
            Environment::Development => "development"@,
            Environment::Production => "production"@,
        }
    }

    /// The canonical lowercase token of the environment, used to pick the
    /// environment-specific configuration file.
    pub fn as_str(&self) -> (r: &'static str)
        ensures
            r@ == self.canonical(),
    {
        match self {
            Environment::Development => "development",
            Environment::Production => "production",
        }
    }

    /// Parses an environment selector case-insensitively against the closed
    /// set of supported tokens; any other value is rejected, and the error
    /// carries the offending value.
    pub fn try_from(s: String) -> (r: Result<Environment, SettingsError>)
        ensures
            lower(s@) == "development"@ ==> r == Ok::<Environment, SettingsError>(
                Environment::Development,
            ),
            lower(s@) == "production"@ ==> r == Ok::<Environment, SettingsError>(
                Environment::Production,
            ),
            lower(s@) != "development"@ && lower(s@) != "production"@ ==> (match r {
                Err(SettingsError::UnsupportedEnvironment(v)) => v == s,
                _ => false,
            }),
    {
        proof {
            reveal_strlit("development");
            reveal_strlit("production");
            assert("development"@.len() != "production"@.len());
        }
        let lowered = to_ascii_lowercase(s.as_str());
        if str_eq(lowered.as_str(), "development") {
            Ok(Environment::Development)
        } else if str_eq(lowered.as_str(), "production") {
            Ok(Environment::Production)
        } else {
            Err(SettingsError::UnsupportedEnvironment(s))
        }
    }

    /// The name of the environment-specific configuration file: the canonical
    /// token followed by the `.yaml` extension.
    pub fn filename(&self) -> (r: String)
        ensures
            r@ == self.canonical() + ".yaml"@,
    {
        String::from_str(self.as_str()).concat(".yaml")
    }
}

} // verus!
