//! The semi-structured document value.
//!
//! An unverified bridge parses raw document bytes (either wire encoding)
//! into this one tagged tree shape; every decoder in this crate reads it and
//! nothing else.  Key lookup is by declared alias lists, first match wins.

use vstd::prelude::*;
use crate::scalar::{is_decimal, is_decimal_seq, parse_i64, spec_parse_i64, str_is};

verus! {

/// A scalar, a key-value mapping, or an ordered sequence.
///
/// Numbers arrive either as native integers (`Int`), as non-integer numerals
/// kept in their original decimal spelling (`Num`), or string-encoded inside
/// `Text`; decoders coerce the native form first, then the textual one.
#[derive(Debug, PartialEq)]
pub enum Value {
    Bool(bool),
    Int(i64),
    Num(String),
    Text(String),
    Sequence(Vec<Value>),
    Mapping(Vec<(String, Value)>),
}

/// A numeric field value: a server-published limit that may carry a
/// fractional part (kept in its exact decimal spelling, never rounded).
#[derive(Debug, Clone, PartialEq)]
pub enum Number {
    Int(i64),
    Dec(String),
}

/// Mathematical image of [`Number`].
pub enum NumberV {
    Int(i64),
    Dec(Seq<char>),
}

impl View for Number {
    type V = NumberV;

    open spec fn view(&self) -> NumberV {
        match self {
            Number::Int(i) => NumberV::Int(*i),
            Number::Dec(s) => NumberV::Dec(s@),
        }
    }
}

/// The value under the first entry whose key is `key`, if any.
pub open spec fn lookup(entries: Seq<(String, Value)>, key: Seq<char>) -> Option<Value>
    decreases entries.len(),
{
    if entries.len() == 0 {
        None
    } else if entries[0].0@ == key {
        Some(entries[0].1)
    } else {
        lookup(entries.skip(1), key)
    }
}

/// Alias resolution over two accepted spellings of one logical field:
/// the first alias wins wherever it is present at all.
pub open spec fn find2(entries: Seq<(String, Value)>, a1: Seq<char>, a2: Seq<char>) -> Option<
    Value,
> {
    if lookup(entries, a1) is Some {
        lookup(entries, a1)
    } else {
        lookup(entries, a2)
    }
}

/// Look one key up in a mapping's entries.
pub fn lookup_key<'a>(entries: &'a Vec<(String, Value)>, key: &str) -> (r: Option<&'a Value>)
    ensures
        match r {
            Some(v) => lookup(entries@, key@) == Some(*v),
            None => lookup(entries@, key@) is None,
        },
{
    proof {
        assert(entries@.skip(0) =~= entries@);
    }
    let mut i: usize = 0;
    while i < entries.len()
        invariant
            0 <= i <= entries@.len(),
            lookup(entries@, key@) == lookup(entries@.skip(i as int), key@),
        decreases entries@.len() - i,
    {
        proof {
            assert(entries@.skip(i as int)[0] == entries@[i as int]);
        }
        let pair = &entries[i];
        if str_is(pair.0.as_str(), key) {
            return Some(&pair.1);
        }
        proof {
            assert(entries@.skip(i as int).skip(1) =~= entries@.skip(i as int + 1));
        }
        i = i + 1;
    }
    proof {
        assert(entries@.skip(i as int).len() == 0);
    }
    None
}

/// Look a two-alias list up in a mapping's entries, first alias first.
pub fn find_alias2<'a>(entries: &'a Vec<(String, Value)>, a1: &str, a2: &str) -> (r: Option<
    &'a Value,
>)
    ensures
        match r {
            Some(v) => find2(entries@, a1@, a2@) == Some(*v),
            None => find2(entries@, a1@, a2@) is None,
        },
{
    match lookup_key(entries, a1) {
        Some(v) => Some(v),
        None => lookup_key(entries, a2),
    }
}

/// Textual content of a scalar: only a `Text` value decodes as a string.
pub open spec fn spec_scalar_text(v: Value) -> Option<Seq<char>> {
    match v {
        Value::Text(s) => Some(s@),
        _ => None,
    }
}

/// Decode a string field.
pub fn scalar_text<'a>(v: &'a Value) -> (r: Option<&'a String>)
    ensures
        match r {
            Some(s) => spec_scalar_text(*v) == Some(s@),
            None => spec_scalar_text(*v) is None,
        },
{
    match v {
        Value::Text(s) => Some(s),
        _ => None,
    }
}

/// Integer content of a scalar: a native integer, or integer text.
pub open spec fn spec_scalar_i64(v: Value) -> Option<i64> {
    match v {
        Value::Int(i) => Some(i),
        Value::Text(s) => spec_parse_i64(s@),
        _ => None,
    }
}

/// Decode an integer field, native form first, then string-coerced.
pub fn scalar_i64(v: &Value) -> (r: Option<i64>)
    ensures
        r == spec_scalar_i64(*v),
{
    match v {
        Value::Int(i) => Some(*i),
        Value::Text(s) => parse_i64(s.as_str()),
        _ => None,
    }
}

/// Small unsigned content of a scalar: a native integer in range, or
/// unsigned integer text.
pub open spec fn spec_scalar_u8(v: Value) -> Option<u8> {
    match v {
        Value::Int(i) => if 0 <= i <= 255 {
            Some(i as u8)
        } else {
            None
        },
        Value::Text(s) => crate::scalar::spec_parse_u8(s@),
        _ => None,
    }
}

/// Decode a small unsigned field, native form first, then string-coerced.
pub fn scalar_u8(v: &Value) -> (r: Option<u8>)
    ensures
        r == spec_scalar_u8(*v),
{
    match v {
        Value::Int(i) => {
            if 0 <= *i && *i <= 255 {
                Some(*i as u8)
            } else {
                None
            }
        },
        Value::Text(s) => crate::scalar::parse_u8(s.as_str()),
        _ => None,
    }
}

/// Boolean content of a scalar: a native boolean, or boolean text.
pub open spec fn spec_scalar_bool(v: Value) -> Option<bool> {
    match v {
        Value::Bool(b) => Some(b),
        Value::Text(s) => crate::scalar::spec_parse_bool(s@),
        _ => None,
    }
}

/// Decode a boolean field, native form first, then string-coerced.
pub fn scalar_bool(v: &Value) -> (r: Option<bool>)
    ensures
        r == spec_scalar_bool(*v),
{
    match v {
        Value::Bool(b) => Some(*b),
        Value::Text(s) => crate::scalar::parse_bool(s.as_str()),
        _ => None,
    }
}

/// Numeric content of a scalar: a native integer, a kept decimal numeral,
/// or numeric text (integer spelling preferred).
pub open spec fn spec_scalar_number(v: Value) -> Option<NumberV> {
    match v {
        Value::Int(i) => Some(NumberV::Int(i)),
        Value::Num(s) => if is_decimal_seq(s@) {
            Some(NumberV::Dec(s@))
        } else {
            None
        },
        Value::Text(s) => match spec_parse_i64(s@) {
            Some(i) => Some(NumberV::Int(i)),
            None => if is_decimal_seq(s@) {
                Some(NumberV::Dec(s@))
            } else {
                None
            },
        },
        _ => None,
    }
}

/// Decode a numeric field, native form first, then string-coerced.
pub fn scalar_number(v: &Value) -> (r: Option<Number>)
    ensures
        match r {
            Some(x) => spec_scalar_number(*v) == Some(x@),
            None => spec_scalar_number(*v) is None,
        },
{
    match v {
        Value::Int(i) => Some(Number::Int(*i)),
        Value::Num(s) => {
            if is_decimal(s.as_str()) {
                Some(Number::Dec(s.clone()))
            } else {
                None
            }
        },
        Value::Text(s) => {
            match parse_i64(s.as_str()) {
                Some(i) => Some(Number::Int(i)),
                None => {
                    if is_decimal(s.as_str()) {
                        Some(Number::Dec(s.clone()))
                    } else {
                        None
                    }
                },
            }
        },
        _ => None,
    }
}

} // verus!
