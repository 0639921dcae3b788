//! Coercion of scalar source values to the declared field types.
//!
//! A field declared as an integer or boolean accepts a native value of that
//! type as well as a textual one, since environment-variable overrides always
//! arrive as text; a textual field accepts only text. A value that fits no
//! rule is a type mismatch, never silently defaulted.

use vstd::prelude::*;

use crate::text::all_digits;
use crate::text::dec_digits;
use crate::text::digits_val;
use crate::text::lower;
use crate::text::parse_u64;
use crate::text::str_eq;
use crate::text::to_ascii_lowercase;
use crate::values::RawValue;
use crate::values::ValueV;

verus! {

/// The boolean a text token stands for, read case-insensitively:
/// `1`, `true`, `on` and `yes` are true; `0`, `false`, `off` and `no` are
/// false; nothing else is a boolean.
pub open spec fn bool_token(s: Seq<char>) -> Option<bool> {
    let l = lower(s);
    if l == "1"@ || l == "true"@ || l == "on"@ || l == "yes"@ {
        Some(true)
    } else if l == "0"@ || l == "false"@ || l == "off"@ || l == "no"@ {
        Some(false)
    } else {
        None
    }
}

/// The value as an unsigned 16-bit integer, if it can be coerced to one.
pub open spec fn as_u16_v(v: ValueV) -> Option<u16> {
    match v {
        ValueV::I64(i) => if 0 <= i && i <= u16::MAX {
            Some(i as u16)
        } else {
            None
        },
        ValueV::U64(u) => if u <= u16::MAX {
            Some(u as u16)
        } else {
            None
        },
        ValueV::Str(s) => if dec_digits(s).len() > 0 && all_digits(dec_digits(s)) && digits_val(
            dec_digits(s),
        ) <= u16::MAX {
            Some(digits_val(dec_digits(s)) as u16)
        } else {
            None
        },
        _ => None,
    }
}

/// The value as an unsigned 64-bit integer, if it can be coerced to one.
pub open spec fn as_u64_v(v: ValueV) -> Option<u64> {
    match v {
        ValueV::I64(i) => if 0 <= i {
            Some(i as u64)
        } else {
            None
        },
        ValueV::U64(u) => Some(u),
        ValueV::Str(s) => if dec_digits(s).len() > 0 && all_digits(dec_digits(s)) && digits_val(
            dec_digits(s),
        ) <= u64::MAX {
            Some(digits_val(dec_digits(s)) as u64)
        } else {
            None
        },
        _ => None,
    }
}

/// The value as a boolean, if it can be coerced to one: an integer counts as
/// true exactly when it is not zero.
pub open spec fn as_bool_v(v: ValueV) -> Option<bool> {
    match v {
        ValueV::Bool(b) => Some(b),
        ValueV::Str(s) => bool_token(s),
        ValueV::I64(i) => Some(i != 0),
        ValueV::U64(u) => Some(u != 0),
        _ => None,
    }
}

/// The value as text; only a textual value is one.
pub open spec fn as_str_v(v: ValueV) -> Option<Seq<char>> {
    match v {
        ValueV::Str(s) => Some(s),
        _ => None,
    }
}

/// Coerces a value to an unsigned 16-bit integer.
pub fn coerce_u16(v: &RawValue) -> (r: Option<u16>)
    ensures
        r == as_u16_v(v@),
{
    match v {
        RawValue::I64(i) => {
            if 0 <= *i && *i <= 65535 {
                Some(*i as u16)
            } else {
                None
            }
        },
        RawValue::U64(u) => {
            if *u <= 65535 {
                Some(*u as u16)
            } else {
                None
            }
        },
        RawValue::Str(s) => {
            match parse_u64(s.as_str()) {
                Some(n) => if n <= 65535 {
                    Some(n as u16)
                } else {
                    None
                },
                None => None,
            }
        },
        _ => None,
    }
}

/// Coerces a value to an unsigned 64-bit integer.
pub fn coerce_u64(v: &RawValue) -> (r: Option<u64>)
    ensures
        r == as_u64_v(v@),
{
    match v {
        RawValue::I64(i) => {
            if 0 <= *i {
                Some(*i as u64)
            } else {
                None
            }
        },
        RawValue::U64(u) => Some(*u),
        RawValue::Str(s) => parse_u64(s.as_str()),
        _ => None,
    }
}

/// Coerces a value to a boolean.
pub fn coerce_bool(v: &RawValue) -> (r: Option<bool>)
    ensures
        r == as_bool_v(v@),
{
    match v {
        RawValue::Bool(b) => Some(*b),
        RawValue::Str(s) => {
            let l = to_ascii_lowercase(s.as_str());
            if str_eq(l.as_str(), "1") || str_eq(l.as_str(), "true") || str_eq(l.as_str(), "on")
                || str_eq(l.as_str(), "yes") {
                Some(true)
            } else if str_eq(l.as_str(), "0") || str_eq(l.as_str(), "false") || str_eq(
                l.as_str(),
                "off",
            ) || str_eq(l.as_str(), "no") {
                Some(false)
            } else {
                None
            }
        },
        RawValue::I64(i) => Some(*i != 0),
        RawValue::U64(u) => Some(*u != 0),
        _ => None,
    }
}

/// Coerces a value to text.
pub fn coerce_string(v: &RawValue) -> (r: Option<String>)
    ensures
        match r {
            Some(s) => as_str_v(v@) == Some(s@),
            None => as_str_v(v@) is None,
        },
{
    match v {
        RawValue::Str(s) => Some(s.clone()),
        _ => None,
    }
}

} // verus!
