//! The error taxonomy of configuration resolution.
//!
//! Every failure is fatal at startup: no partial settings value is ever
//! produced. Each variant carries enough detail to diagnose the failure
//! without re-running.

use vstd::prelude::*;

verus! {

/// Why configuration resolution failed.
#[derive(Debug, Clone, PartialEq, Eq)]
pub enum SettingsError {
    /// The environment selector was set to a value outside the closed set of
    /// supported tokens; carries the offending value.
    UnsupportedEnvironment(String),
    /// A configuration source could not be parsed; carries the parser's
    /// description of the fault.
    SourceParse(String),
    /// A required field was absent from every source; carries the field's
    /// dotted path.
    MissingField(String),
    /// A field was present but its value could not be coerced to the field's
    /// declared type; carries the field's dotted path.
    TypeMismatch(String),
}

impl SettingsError {
    /// A human-readable description of the failure.
    pub fn message(&self) -> (r: String)
        ensures
            match self {
                SettingsError::UnsupportedEnvironment(v) => r@ == v@
                    + " is not a supported environment. Use either `development` or `production`."@,
                SettingsError::SourceParse(m) => r@
                    == "configuration source could not be parsed: "@ + m@,
                SettingsError::MissingField(p) => r@ == "missing required field `"@ + p@ + "`"@,
                SettingsError::TypeMismatch(p) => r@ == "field `"@ + p@
                    + "` has a value of the wrong type"@,
            },
    {
        match self {
            SettingsError::UnsupportedEnvironment(v) => v.clone().concat(
                " is not a supported environment. Use either `development` or `production`.",
            ),
            SettingsError::SourceParse(m) => String::from_str(
                "configuration source could not be parsed: ",
            ).concat(m.as_str()),
            SettingsError::MissingField(p) => String::from_str("missing required field `").concat(
                p.as_str(),
            ).concat("`"),
            SettingsError::TypeMismatch(p) => String::from_str("field `").concat(
                p.as_str(),
            ).concat("` has a value of the wrong type"),
        }
    }
}

} // verus!
