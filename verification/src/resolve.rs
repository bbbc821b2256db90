//! The value resolver: decode an optional registry text into a typed scalar,
//! substituting the type's zero value on any failure.
//!
//! A key that is absent, unreadable, or whose text does not parse as the
//! requested type all resolve to the same default; no error is surfaced.

use vstd::prelude::*;
use crate::parse::{parse_int_text, spec_parse_int};

verus! {

/// The text of an optional registry value, as a mathematical option.
pub open spec fn opt_text_view(v: Option<String>) -> Option<Seq<char>> {
    match v {
        Some(s) => Some(s@),
        None => None,
    }
}

/// What an optional registry text resolves to as an integer within
/// `[lo, hi]`: its parsed value, or zero when there is no text or the text
/// does not parse.
pub open spec fn spec_resolve_int(v: Option<Seq<char>>, lo: int, hi: int) -> int {
    match v {
        None => 0,
        Some(s) => match spec_parse_int(s, lo, hi) {
            Some(x) => x,
            None => 0,
        },
    }
}

/// What an optional registry text resolves to as text: itself, or the empty
/// string when there is no text.
pub open spec fn spec_resolve_text(v: Option<Seq<char>>) -> Seq<char> {
    match v {
        None => Seq::<char>::empty(),
        Some(s) => s,
    }
}

/// Resolves an optional registry text as an `i32`.
pub fn resolve_i32(v: Option<String>) -> (r: i32)
    ensures
        r as int == spec_resolve_int(opt_text_view(v), i32::MIN as int, i32::MAX as int),
{
    match v {
        None => 0,
        Some(s) => match parse_int_text(s.as_str(), i32::MIN as i64, i32::MAX as i64) {
            Some(x) => x as i32,
            None => 0,
        },
    }
}

/// Resolves an optional registry text as an `i64`.
pub fn resolve_i64(v: Option<String>) -> (r: i64)
    ensures
        r as int == spec_resolve_int(opt_text_view(v), i64::MIN as int, i64::MAX as int),
{
    match v {
        None => 0,
        Some(s) => match parse_int_text(s.as_str(), i64::MIN, i64::MAX) {
            Some(x) => x,
            None => 0,
        },
    }
}

/// Resolves an optional registry text as a `String`.
pub fn resolve_text(v: Option<String>) -> (r: String)
    ensures
        r@ == spec_resolve_text(opt_text_view(v)),
{
    match v {
        None => String::new(),
        Some(s) => s,
    }
}

} // verus!
