//! The layered configuration loader.
//!
//! The loader is purely functional over injected inputs: the text of the two
//! configuration files and the name-value pairs of the process environment.
//! Reading the files and the environment is the caller's business; handing
//! the same inputs in twice yields the same outcome.

use vstd::prelude::*;

use crate::environment::Environment;
use crate::envsource::env_overrides;
use crate::envsource::env_views;
use crate::envsource::pair_views;
use crate::errors::SettingsError;
use crate::settings::Resolution;
use crate::settings::Settings;
use crate::settings::extracted;
use crate::settings::resolve;
use crate::settings::settings_from_entries;
use crate::text::lower;
use crate::text::str_eq;
use crate::values::entry_views;
use crate::values::merged;
use crate::yaml::load_yaml;
use crate::yaml::source_entries;
use crate::yaml::yaml_entries_of;

verus! {

/// The value of the first pair bound to a name, read case-sensitively as the
/// process environment is.
pub open spec fn env_var_value(pairs: Seq<(Seq<char>, Seq<char>)>, name: Seq<char>) -> Option<
    Seq<char>,
>
    decreases pairs.len(),
{
    if pairs.len() == 0 {
        None
    } else if pairs[0].0 == name {
        Some(pairs[0].1)
    } else {
        env_var_value(pairs.skip(1), name)
    }
}

/// Detects the running environment from the `APP_ENVIRONMENT` pair of the
/// injected environment: absent defaults to development; present, its value
/// is parsed case-insensitively against the supported tokens.
pub fn resolve_environment(pairs: &Vec<(String, String)>) -> (r: Result<
    Environment,
    SettingsError,
>)
    ensures
        match env_var_value(pair_views(pairs@), "APP_ENVIRONMENT"@) {
            None => r == Ok::<Environment, SettingsError>(Environment::Development),
            Some(v) => match r {
                Ok(env) => lower(v) == env.canonical(),
                Err(SettingsError::UnsupportedEnvironment(w)) => w@ == v && lower(v)
                    != "development"@ && lower(v) != "production"@,
                _ => false,
            },
        },
{
    let ghost all = pair_views(pairs@);
    proof {
        assert(all.skip(0) =~= all);
    }
    let mut j: usize = 0;
    while j < pairs.len()
        invariant
            j <= pairs.len(),
            all == pair_views(pairs@),
            all.len() == pairs@.len(),
            env_var_value(all, "APP_ENVIRONMENT"@) == env_var_value(
                all.skip(j as int),
                "APP_ENVIRONMENT"@,
            ),
        decreases pairs.len() - j,
    {
        proof {
            assert(all.skip(j as int)[0] == all[j as int]);
            assert(all.skip(j as int).skip(1) =~= all.skip(j + 1));
        }
        if str_eq(pairs[j].0.as_str(), "APP_ENVIRONMENT") {
            let value = pairs[j].1.clone();
            return Environment::try_from(value);
        }
        j += 1;
    }
    proof {
        assert(all.skip(all.len() as int) =~= Seq::<(Seq<char>, Seq<char>)>::empty());
    }
    Ok(Environment::Development)
}

/// What loading the given file texts and environment pairs amounts to: the
/// resolution of the two parsed sources' extracts with the overrides laid on
/// top, or nothing where either text is not parseable.
pub open spec fn load_model(
    base: Seq<char>,
    overlay: Seq<char>,
    env: Seq<(Seq<char>, Seq<char>)>,
) -> Option<Resolution> {
    match (yaml_entries_of(base), yaml_entries_of(overlay)) {
        (Some(b), Some(o)) => Some(resolve(extracted(b) + extracted(o) + env_views(env))),
        _ => None,
    }
}

/// Loads the layered configuration: the base file's text, then the
/// environment-specific file's text, then the environment-variable
/// overrides, each later source overriding the earlier ones, and resolves
/// the merged entries into the typed settings value. The outcome is exactly
/// what the loading model prescribes for these inputs: the resolved settings
/// when both texts parse and resolution succeeds, the resolution's first
/// fault when it fails, and a parse error exactly when a text is not
/// parseable — so identical inputs always load to the same outcome.
pub fn get_settings(
    base_text: &str,
    environment_text: &str,
    env_pairs: &Vec<(String, String)>,
) -> (r: Result<Settings, SettingsError>)
    ensures
        match r {
            Ok(s) => load_model(base_text@, environment_text@, pair_views(env_pairs@)) == Some(
                Resolution::Resolved(s@),
            ),
            Err(SettingsError::MissingField(p)) => load_model(
                base_text@,
                environment_text@,
                pair_views(env_pairs@),
            ) == Some(Resolution::MissingField(p@)),
            Err(SettingsError::TypeMismatch(p)) => load_model(
                base_text@,
                environment_text@,
                pair_views(env_pairs@),
            ) == Some(Resolution::TypeMismatch(p@)),
            Err(SettingsError::SourceParse(_)) => load_model(
                base_text@,
                environment_text@,
                pair_views(env_pairs@),
            ) is None,
            Err(SettingsError::UnsupportedEnvironment(_)) => false,
        },
{
    let base_config = match load_yaml(base_text) {
        Ok(c) => c,
        Err(m) => return Err(SettingsError::SourceParse(m)),
    };
    let environment_config = match load_yaml(environment_text) {
        Ok(c) => c,
        Err(m) => return Err(SettingsError::SourceParse(m)),
    };
    let base_entries = source_entries(&base_config);
    let overlay_entries = source_entries(&environment_config);
    let override_entries = env_overrides(env_pairs);
    let ghost bv = entry_views(base_entries@);
    let ghost ov = entry_views(overlay_entries@);
    let all = merged(base_entries, overlay_entries, override_entries);
    let r = settings_from_entries(&all);
    proof {
        assert(entry_views(all@) == bv + ov + env_views(pair_views(env_pairs@)));
        assert(load_model(base_text@, environment_text@, pair_views(env_pairs@)) == Some(
            resolve(entry_views(all@)),
        ));
    }
    r
}

} // verus!
