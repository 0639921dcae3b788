//! Flat configuration entries and their merge semantics.
//!
//! Every configuration source contributes an ordered list of entries, each a
//! dotted key path bound to one scalar value. Sources are merged by
//! concatenation, and a key resolves to the value of its *last* entry, so a
//! later source overrides an earlier one.

use vstd::prelude::*;

verus! {

/// A scalar configuration value as one source holds it.
#[derive(Debug)]
pub enum RawValue {
    /// A textual value.
    Str(String),
    /// A signed integer value.
    I64(i64),
    /// An unsigned integer value.
    U64(u64),
    /// A value of a shape outside the resolver's scalar model (for instance a
    /// nested list); it coerces to no field type.
    Opaque,
    /// A boolean value.
    Bool(bool),
}

/// The mathematical model of a scalar value.
pub enum ValueV {
    Str(Seq<char>),
    I64(i64),
    U64(u64),
    Opaque,
    Bool(bool),
}

impl View for RawValue {
    type V = ValueV;

    open spec fn view(&self) -> ValueV {
        match self {
            RawValue::Str(s) => ValueV::Str(s@),
            RawValue::I64(i) => ValueV::I64(*i),
            RawValue::U64(u) => ValueV::U64(*u),
            RawValue::Opaque => ValueV::Opaque,
            RawValue::Bool(b) => ValueV::Bool(*b),
        }
    }
}

/// One key path bound to one value, as contributed by one source.
#[derive(Debug)]
pub struct Entry {
    /// The dotted path of the field, for instance `application.port`.
    pub key: String,
    /// The value bound to the path.
    pub value: RawValue,
}

impl View for Entry {
    type V = (Seq<char>, ValueV);

    open spec fn view(&self) -> (Seq<char>, ValueV) {
        (self.key@, self.value@)
    }
}

/// The model of one configuration source: its entries in order.
pub type SourceV = Seq<(Seq<char>, ValueV)>;

/// The models of a list of entries, in order.
pub open spec fn entry_views(entries: Seq<Entry>) -> SourceV {
    entries.map_values(|e: Entry| e@)
}

/// The value a key resolves to: the value of the last entry bound to it.
pub open spec fn lookup(src: SourceV, key: Seq<char>) -> Option<ValueV>
    decreases src.len(),
{
    if src.len() == 0 {
        None
    } else if src.last().0 == key {
        Some(src.last().1)
    } else {
        lookup(src.drop_last(), key)
    }
}

/// Later sources win: a key bound in the later of two concatenated sources
/// resolves to its value there, whatever the earlier one binds it to.
pub proof fn lemma_later_source_wins(earlier: SourceV, later: SourceV, key: Seq<char>)
    requires
        lookup(later, key) is Some,
    ensures
        lookup(earlier + later, key) == lookup(later, key),
    decreases later.len(),
{
    let all = earlier + later;
    assert(all.last() == later.last());
    assert(all.drop_last() =~= earlier + later.drop_last());
    if later.last().0 != key {
        lemma_later_source_wins(earlier, later.drop_last(), key);
    }
}

/// A key absent from the later of two concatenated sources falls through to
/// the earlier one.
pub proof fn lemma_absent_key_falls_through(earlier: SourceV, later: SourceV, key: Seq<char>)
    requires
        lookup(later, key) is None,
    ensures
        lookup(earlier + later, key) == lookup(earlier, key),
    decreases later.len(),
{
    if later.len() == 0 {
        assert(earlier + later =~= earlier);
    } else {
        let all = earlier + later;
        assert(all.last() == later.last());
        assert(all.drop_last() =~= earlier + later.drop_last());
        lemma_absent_key_falls_through(earlier, later.drop_last(), key);
    }
}

/// The contribution of one key to an extract of a source: a single entry
/// where the source binds the key, nothing where it does not.
pub open spec fn opt_entry(src: SourceV, key: Seq<char>) -> SourceV {
    match lookup(src, key) {
        Some(v) => seq![(key, v)],
        None => Seq::empty(),
    }
}

/// The override layer decides every field it binds: with the overrides laid
/// on top of the two files, a bound key resolves to the override's value,
/// whatever either file binds it to.
pub proof fn lemma_override_layer_decides(
    base: SourceV,
    overlay: SourceV,
    env: SourceV,
    key: Seq<char>,
)
    requires
        lookup(env, key) is Some,
    ensures
        lookup(base + overlay + env, key) == lookup(env, key),
{
    lemma_later_source_wins(base + overlay, env, key);
}

/// The environment-specific file decides every field it binds that no
/// override touches: it overrides the base file.
pub proof fn lemma_overlay_decides_without_override(
    base: SourceV,
    overlay: SourceV,
    env: SourceV,
    key: Seq<char>,
)
    requires
        lookup(env, key) is None,
        lookup(overlay, key) is Some,
    ensures
        lookup(base + overlay + env, key) == lookup(overlay, key),
{
    lemma_absent_key_falls_through(base + overlay, env, key);
    lemma_later_source_wins(base, overlay, key);
}

/// Entry models distribute over concatenation of entry lists.
pub proof fn lemma_entry_views_concat(a: Seq<Entry>, b: Seq<Entry>)
    ensures
        entry_views(a + b) =~= entry_views(a) + entry_views(b),
{
}

/// Finds the entry a key resolves to: the last entry bound to the key.
pub fn lookup_entry<'a>(entries: &'a Vec<Entry>, key: &str) -> (r: Option<&'a RawValue>)
    ensures
        match r {
            Some(v) => lookup(entry_views(entries@), key@) == Some(v@),
            None => lookup(entry_views(entries@), key@) is None,
        },
{
    let ghost vs = entry_views(entries@);
    proof {
        assert(vs.subrange(0, vs.len() as int) =~= vs);
    }
    let mut i: usize = entries.len();
    while i > 0
        invariant
            i <= entries.len(),
            vs == entry_views(entries@),
            vs.len() == entries@.len(),
            lookup(vs, key@) == lookup(vs.subrange(0, i as int), key@),
        decreases i,
    {
        i -= 1;
        proof {
            assert(vs.subrange(0, i + 1).last() == vs[i as int]);
            assert(vs.subrange(0, i + 1).drop_last() =~= vs.subrange(0, i as int));
        }
        if crate::text::str_eq(entries[i].key.as_str(), key) {
            return Some(&entries[i].value);
        }
    }
    proof {
        assert(vs.subrange(0, 0) =~= Seq::<(Seq<char>, ValueV)>::empty());
    }
    None
}

/// Concatenates the three sources in precedence order: the base file, then
/// the environment-specific file, then the environment-variable overrides.
pub fn merged(base: Vec<Entry>, overlay: Vec<Entry>, env: Vec<Entry>) -> (r: Vec<Entry>)
    ensures
        r@ == base@ + overlay@ + env@,
        entry_views(r@) == entry_views(base@) + entry_views(overlay@) + entry_views(env@),
{
    let ghost b = base@;
    let ghost o = overlay@;
    let ghost e = env@;
    let mut r = base;
    let mut overlay = overlay;
    let mut env = env;
    r.append(&mut overlay);
    r.append(&mut env);
    proof {
        lemma_entry_views_concat(b, o);
        lemma_entry_views_concat(b + o, e);
        assert(entry_views(r@) =~= entry_views(b) + entry_views(o) + entry_views(e));
    }
    r
}

} // verus!
