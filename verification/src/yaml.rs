//! Reading one YAML configuration source through the `config` crate.
//!
//! Parsing is delegated to the outside crate. Its outcome is a function of
//! the text alone, so it is given a name: `yaml_entries_of` is the model of
//! what a text parses to, and `config_entries` the model of what a parsed
//! source binds each key path to. The resolver's own logic works on the flat
//! entries extracted at the required field paths.

use vstd::prelude::*;

use crate::settings::extracted;
use crate::values::Entry;
use crate::values::RawValue;
use crate::values::SourceV;
use crate::values::entry_views;
use crate::values::lookup;
use crate::values::opt_entry;

verus! {

/// Declares config's `Config`, an opaque parsed source.
#[verifier::external_type_specification]
#[verifier::external_body]
pub struct ExConfig(config::Config);

/// What a YAML text parses to: the model of the parsed source, or nothing
/// where the text is not parseable. Parsing depends on the text alone.
pub uninterp spec fn yaml_entries_of(text: Seq<char>) -> Option<SourceV>;

/// The model of a parsed source: what it binds each key path to.
pub uninterp spec fn config_entries(c: config::Config) -> SourceV;

/// Relies on config's `Config::builder`, `File::from_str` with the YAML
/// format, and `ConfigBuilder::build`: parses the text as one YAML source.
/// The parsed source models what the text parses to; malformed text returns
/// the parser's message instead.
#[verifier::external_body]
pub(crate) fn load_yaml(text: &str) -> (r: Result<config::Config, String>)
    ensures
        match r {
            Ok(c) => yaml_entries_of(text@) == Some(config_entries(c)),
            Err(_) => yaml_entries_of(text@) is None,
        },
{
    let built = config::Config::builder()
        .add_source(config::File::from_str(text, config::FileFormat::Yaml))
        .build();
    match built {
        Ok(c) => Ok(c),
        Err(e) => Err(format!("{e}")),
    }
}

/// Relies on config's `Config::get` at a dotted key path: reports the value
/// the source binds the path to, or that the path is unbound. Each supported
/// scalar kind maps to its own variant; any other kind comes back as
/// `RawValue::Opaque`.
#[verifier::external_body]
pub(crate) fn raw_value_at(c: &config::Config, path: &str) -> (r: Option<RawValue>)
    ensures
        match r {
            Some(v) => lookup(config_entries(*c), path@) == Some(v@),
            None => lookup(config_entries(*c), path@) is None,
        },
{
    match c.get::<config::Value>(path) {
        Err(_) => None,
        Ok(v) => match v.kind {
            config::ValueKind::Boolean(b) => Some(RawValue::Bool(b)),
            config::ValueKind::I64(i) => Some(RawValue::I64(i)),
            config::ValueKind::U64(u) => Some(RawValue::U64(u)),
            config::ValueKind::String(s) => Some(RawValue::Str(s)),
            _ => Some(RawValue::Opaque),
        },
    }
}

/// Appends the entry of one field path: the source's binding of the path if
/// it has one, nothing otherwise.
fn push_field(out: &mut Vec<Entry>, c: &config::Config, path: &str)
    ensures
        entry_views(final(out)@) == entry_views(old(out)@) + opt_entry(config_entries(*c), path@),
{
    let ghost pre = entry_views(out@);
    match raw_value_at(c, path) {
        Some(v) => {
            let e = Entry { key: path.to_owned(), value: v };
            let ghost ev = e@;
            out.push(e);
            proof {
                assert(entry_views(out@) =~= pre + seq![ev]);
                assert(entry_views(out@) =~= pre + opt_entry(config_entries(*c), path@));
            }
        },
        None => {
            proof {
                assert(entry_views(out@) =~= pre + opt_entry(config_entries(*c), path@));
            }
        },
    }
}

/// Extracts from one parsed source the entry of every required field path
/// the source binds, in field order.
pub fn source_entries(c: &config::Config) -> (r: Vec<Entry>)
    ensures
        entry_views(r@) == extracted(config_entries(*c)),
{
    let mut out: Vec<Entry> = Vec::new();
    proof {
        assert(entry_views(out@) =~= Seq::<(Seq<char>, crate::values::ValueV)>::empty());
    }
    push_field(&mut out, c, "application.port");
    push_field(&mut out, c, "application.host");
    push_field(&mut out, c, "application.base_url");
    push_field(&mut out, c, "application.protocol");
    push_field(&mut out, c, "debug");
    push_field(&mut out, c, "database.username");
    push_field(&mut out, c, "database.password");
    push_field(&mut out, c, "database.port");
    push_field(&mut out, c, "database.host");
    push_field(&mut out, c, "database.database_name");
    push_field(&mut out, c, "database.require_ssl");
    push_field(&mut out, c, "redis.uri");
    push_field(&mut out, c, "redis.pool_max_open");
    push_field(&mut out, c, "redis.pool_max_idle");
    push_field(&mut out, c, "redis.pool_timeout_seconds");
    push_field(&mut out, c, "redis.pool_expire_seconds");
    proof {
        assert(entry_views(out@) =~= extracted(config_entries(*c)));
    }
    out
}

} // verus!
