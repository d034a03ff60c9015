//! What every stored entity shares: the audit metadata, and the decoded
//! values a partial update carries, with the conversions a field applies to
//! them (a value of the wrong shape leaves the field as it was).

use vstd::prelude::*;
use crate::ids::{uuid_parse, uuid_parse_spec, parse_instant, instant_parse_spec};

verus! {

/// Who created, updated and deleted an entity, and when (microseconds since
/// the Unix epoch).
#[derive(Debug, Clone, Copy, PartialEq, Eq, Structural)]
pub struct AuditMetadata {
    pub created_at: Option<i64>,
    pub updated_at: Option<i64>,
    pub deleted_at: Option<i64>,
    pub created_by: Option<u128>,
    pub updated_by: Option<u128>,
    pub deleted_by: Option<u128>,
}

impl AuditMetadata {
    /// Nothing recorded yet.
    pub open spec fn empty() -> Self {
        AuditMetadata {
            created_at: None,
            updated_at: None,
            deleted_at: None,
            created_by: None,
            updated_by: None,
            deleted_by: None,
        }
    }

    /// Nothing recorded yet.
    pub fn new() -> (r: Self)
        ensures
            r == Self::empty(),
    {
        AuditMetadata {
            created_at: None,
            updated_at: None,
            deleted_at: None,
            created_by: None,
            updated_by: None,
            deleted_by: None,
        }
    }
}

impl Default for AuditMetadata {
    fn default() -> (r: Self)
        ensures
            r == Self::empty(),
    {
        AuditMetadata::new()
    }
}

/// One decoded value of a partial update.
#[derive(Debug)]
pub enum PatchValue {
    /// `null`.
    Null,
    /// A boolean.
    Bool(bool),
    /// An integral number.
    Int(i128),
    /// A string.
    Text(String),
    /// An array of values.
    List(Vec<PatchValue>),
    /// An object: its members in order.
    Object(Vec<(String, PatchValue)>),
    /// A number that is not an integer (its value is not kept).
    Other,
}

/// The string a value holds, if it is one.
pub open spec fn text_of(v: PatchValue) -> Option<String> {
    match v {
        PatchValue::Text(s) => Some(s),
        _ => None,
    }
}

/// The 32-bit integer a value holds, if it is an integral number in range.
pub open spec fn i32_of(v: PatchValue) -> Option<i32> {
    match v {
        PatchValue::Int(n) => if i32::MIN <= n <= i32::MAX {
            Some(n as i32)
        } else {
            None
        },
        _ => None,
    }
}

/// The boolean a value holds, if it is one.
pub open spec fn bool_of(v: PatchValue) -> Option<bool> {
    match v {
        PatchValue::Bool(b) => Some(b),
        _ => None,
    }
}

/// The identifier a value denotes, if it is a string that parses as one.
pub open spec fn uuid_of(v: PatchValue) -> Option<u128> {
    match v {
        PatchValue::Text(s) => uuid_parse_spec(s@),
        _ => None,
    }
}

/// An optional string: `null` is none, a string is some.
pub open spec fn opt_text_of(v: PatchValue) -> Option<Option<String>> {
    match v {
        PatchValue::Null => Some(None),
        PatchValue::Text(s) => Some(Some(s)),
        _ => None,
    }
}

/// An optional identifier: `null` is none, a parsing string is some.
pub open spec fn opt_uuid_of(v: PatchValue) -> Option<Option<u128>> {
    match v {
        PatchValue::Null => Some(None),
        PatchValue::Text(s) => match uuid_parse_spec(s@) {
            Some(id) => Some(Some(id)),
            None => None,
        },
        _ => None,
    }
}

/// Any value, as it is (a field that holds a JSON value takes every value).
pub open spec fn json_of(v: PatchValue) -> Option<PatchValue> {
    Some(v)
}

/// The string a value holds, if it is one.
pub fn value_text(v: &PatchValue) -> (r: Option<String>)
    ensures
        r == text_of(*v),
{
    match v {
        PatchValue::Text(s) => Some(s.clone()),
        _ => None,
    }
}

/// The 32-bit integer a value holds, if it is an integral number in range.
pub fn value_i32(v: &PatchValue) -> (r: Option<i32>)
    ensures
        r == i32_of(*v),
{
    match v {
        PatchValue::Int(n) => if i32::MIN as i128 <= *n && *n <= i32::MAX as i128 {
            Some(*n as i32)
        } else {
            None
        },
        _ => None,
    }
}

/// The boolean a value holds, if it is one.
pub fn value_bool(v: &PatchValue) -> (r: Option<bool>)
    ensures
        r == bool_of(*v),
{
    match v {
        PatchValue::Bool(b) => Some(*b),
        _ => None,
    }
}

/// The identifier a value denotes, if it is a string that parses as one.
pub fn value_uuid(v: &PatchValue) -> (r: Option<u128>)
    ensures
        r == uuid_of(*v),
{
    match v {
        PatchValue::Text(s) => uuid_parse(s.as_str()),
        _ => None,
    }
}

/// An optional string: `null` is none, a string is some.
pub fn value_opt_text(v: &PatchValue) -> (r: Option<Option<String>>)
    ensures
        r == opt_text_of(*v),
{
    match v {
        PatchValue::Null => Some(None),
        PatchValue::Text(s) => Some(Some(s.clone())),
        _ => None,
    }
}

/// An optional identifier: `null` is none, a parsing string is some.
pub fn value_opt_uuid(v: &PatchValue) -> (r: Option<Option<u128>>)
    ensures
        r == opt_uuid_of(*v),
{
    match v {
        PatchValue::Null => Some(None),
        PatchValue::Text(s) => match uuid_parse(s.as_str()) {
            Some(id) => Some(Some(id)),
            None => None,
        },
        _ => None,
    }
}


/// The instant a value denotes, if it is an RFC 3339 string.
pub open spec fn instant_of(v: PatchValue) -> Option<i64> {
    match v {
        PatchValue::Text(s) => instant_parse_spec(s@),
        _ => None,
    }
}

/// An optional instant: `null` is none, a parsing string is some.
pub open spec fn opt_instant_of(v: PatchValue) -> Option<Option<i64>> {
    match v {
        PatchValue::Null => Some(None),
        PatchValue::Text(s) => match instant_parse_spec(s@) {
            Some(t) => Some(Some(t)),
            None => None,
        },
        _ => None,
    }
}

/// The instant a value denotes, if it is an RFC 3339 string.
pub fn value_instant(v: &PatchValue) -> (r: Option<i64>)
    ensures
        r == instant_of(*v),
{
    match v {
        PatchValue::Text(s) => parse_instant(s.as_str()),
        _ => None,
    }
}

/// An optional instant: `null` is none, a parsing string is some.
pub fn value_opt_instant(v: &PatchValue) -> (r: Option<Option<i64>>)
    ensures
        r == opt_instant_of(*v),
{
    match v {
        PatchValue::Null => Some(None),
        PatchValue::Text(s) => match parse_instant(s.as_str()) {
            Some(t) => Some(Some(t)),
            None => None,
        },
        _ => None,
    }
}

} // verus!
