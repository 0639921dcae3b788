//! The environment-variable override source.
//!
//! An environment variable addresses a settings field through its name: the
//! fixed `APP` prefix and a single underscore, then the field's path with a
//! double underscore between path segments. `APP_APPLICATION__PORT` addresses
//! `application.port`. Names are read case-insensitively; values always
//! arrive as text and are coerced at resolution.

use vstd::prelude::*;

use crate::text::lower;
use crate::text::to_ascii_lowercase;
use crate::values::Entry;
use crate::values::RawValue;
use crate::values::SourceV;
use crate::values::ValueV;
use crate::values::entry_views;

verus! {

/// Greedy left-to-right replacement of the double-underscore segment
/// separator by a dot.
pub open spec fn replace_sep(s: Seq<char>) -> Seq<char>
    decreases s.len(),
{
    if s.len() == 0 {
        Seq::empty()
    } else if s.len() >= 2 && s[0] == '_' && s[1] == '_' {
        seq!['.'] + replace_sep(s.skip(2))
    } else {
        seq![s[0]] + replace_sep(s.skip(1))
    }
}

/// The dotted settings path an environment-variable name addresses, if the
/// lowercased name carries the override prefix `app_`.
pub open spec fn env_key(name: Seq<char>) -> Option<Seq<char>> {
    let l = lower(name);
    if l.len() >= 4 && l.subrange(0, 4) == "app_"@ {
        Some(replace_sep(l.skip(4)))
    } else {
        None
    }
}

/// The models of the name-value pairs of the process environment.
pub open spec fn pair_views(pairs: Seq<(String, String)>) -> Seq<(Seq<char>, Seq<char>)> {
    pairs.map_values(|p: (String, String)| (p.0@, p.1@))
}

/// The override entries the environment pairs contribute, in order: one
/// textual entry per pair whose name carries the override prefix.
pub open spec fn env_views(pairs: Seq<(Seq<char>, Seq<char>)>) -> SourceV
    decreases pairs.len(),
{
    if pairs.len() == 0 {
        Seq::empty()
    } else {
        env_views(pairs.drop_last()) + (match env_key(pairs.last().0) {
            Some(k) => seq![(k, ValueV::Str(pairs.last().1))],
            None => Seq::empty(),
        })
    }
}

/// The dotted settings path an environment-variable name addresses, if any.
pub fn override_key(name: &str) -> (r: Option<String>)
    ensures
        match r {
            Some(k) => env_key(name@) == Some(k@),
            None => env_key(name@) is None,
        },
{
    proof {
        reveal_strlit("app_");
    }
    let lowered = to_ascii_lowercase(name);
    let l = lowered.as_str();
    let n = l.unicode_len();
    if n < 4 {
        return None;
    }
    if !(l.get_char(0) == 'a' && l.get_char(1) == 'p' && l.get_char(2) == 'p' && l.get_char(3)
        == '_') {
        proof {
            let pre = lower(name@).subrange(0, 4);
            assert(pre[0] == l@[0] && pre[1] == l@[1] && pre[2] == l@[2] && pre[3] == l@[3]);
            assert(pre != "app_"@);
        }
        return None;
    }
    proof {
        assert(lower(name@).subrange(0, 4) =~= "app_"@);
    }
    let mut out = String::new();
    let mut i: usize = 4;
    while i < n
        invariant
            4 <= i <= n,
            n == l@.len(),
            l@ == lower(name@),
            replace_sep(l@.skip(4)) == out@ + replace_sep(l@.skip(i as int)),
        decreases n - i,
    {
        let ghost rest = l@.skip(i as int);
        let c = l.get_char(i);
        proof {
            assert(rest[0] == l@[i as int]);
        }
        if c == '_' && i + 1 < n && l.get_char(i + 1) == '_' {
            proof {
                assert(rest[1] == l@[i + 1]);
                assert(rest.skip(2) =~= l@.skip(i + 2));
                assert(replace_sep(rest) == seq!['.'] + replace_sep(l@.skip(i + 2)));
            }
            crate::text::push_char(&mut out, '.');
            i += 2;
        } else {
            proof {
                if rest.len() >= 2 {
                    assert(rest[1] == l@[i + 1]);
                }
                assert(rest.skip(1) =~= l@.skip(i + 1));
                assert(replace_sep(rest) == seq![rest[0]] + replace_sep(l@.skip(i + 1)));
            }
            crate::text::push_char(&mut out, c);
            i += 1;
        }
    }
    proof {
        assert(l@.skip(n as int) =~= Seq::<char>::empty());
        assert(out@ =~= replace_sep(l@.skip(4)));
    }
    Some(out)
}

/// Collects the override entries of the environment pairs, in order.
pub fn env_overrides(pairs: &Vec<(String, String)>) -> (r: Vec<Entry>)
    ensures
        entry_views(r@) == env_views(pair_views(pairs@)),
{
    let mut out: Vec<Entry> = Vec::new();
    let mut j: usize = 0;
    while j < pairs.len()
        invariant
            j <= pairs.len(),
            entry_views(out@) == env_views(pair_views(pairs@.subrange(0, j as int))),
        decreases pairs.len() - j,
    {
        let ghost pre = pair_views(pairs@.subrange(0, j as int));
        let ghost post = pair_views(pairs@.subrange(0, j + 1));
        proof {
            assert(post.drop_last() =~= pre);
            assert(post.last() == (pairs@[j as int].0@, pairs@[j as int].1@));
        }
        match override_key(pairs[j].0.as_str()) {
            Some(k) => {
                let e = Entry { key: k, value: RawValue::Str(pairs[j].1.clone()) };
                let ghost old_out = out@;
                out.push(e);
                proof {
                    assert(entry_views(out@) =~= entry_views(old_out) + seq![e@]);
                }
            },
            None => (),
        }
        j += 1;
    }
    proof {
        assert(pairs@.subrange(0, pairs@.len() as int) =~= pairs@);
    }
    out
}

} // verus!
