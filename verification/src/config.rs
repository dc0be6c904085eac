//! Configuration values read from the environment: a raw value (absent when
//! the variable is unset or not Unicode) is parsed, or the default applies.

use vstd::prelude::*;
use vstd::string::*;
use crate::codec::{
    parse_i64_bytes, parse_i64_spec, parse_u32_bytes, parse_u32_spec, parse_u64_bytes,
    parse_u64_spec,
};
use crate::text::str_eq;

verus! {

/// The raw value parsed as an `i64`, or `default` when absent or malformed.
pub fn parsed_i64_or(raw: Option<&str>, default: i64) -> (r: i64)
    ensures
        r == match raw {
            Some(s) => match parse_i64_spec(s.spec_bytes()) {
                Some(v) => v,
                None => default,
            },
            None => default,
        },
{
    match raw {
        Some(s) => {
            let b = s.as_bytes();
            assert(b@.subrange(0, b@.len() as int) =~= b@);
            match parse_i64_bytes(b, 0, b.len()) {
                Some(v) => v,
                None => default,
            }
        },
        None => default,
    }
}

/// The raw value parsed as a `u64`, or `default` when absent or malformed.
pub fn parsed_u64_or(raw: Option<&str>, default: u64) -> (r: u64)
    ensures
        r == match raw {
            Some(s) => match parse_u64_spec(s.spec_bytes()) {
                Some(v) => v,
                None => default,
            },
            None => default,
        },
{
    match raw {
        Some(s) => {
            let b = s.as_bytes();
            assert(b@.subrange(0, b@.len() as int) =~= b@);
            match parse_u64_bytes(b, 0, b.len()) {
                Some(v) => v,
                None => default,
            }
        },
        None => default,
    }
}

/// The raw value parsed as a `u32`, or `default` when absent or malformed.
pub fn parsed_u32_or(raw: Option<&str>, default: u32) -> (r: u32)
    ensures
        r == match raw {
            Some(s) => match parse_u32_spec(s.spec_bytes()) {
                Some(v) => v,
                None => default,
            },
            None => default,
        },
{
    match raw {
        Some(s) => {
            let b = s.as_bytes();
            assert(b@.subrange(0, b@.len() as int) =~= b@);
            match parse_u32_bytes(b, 0, b.len()) {
                Some(v) => v,
                None => default,
            }
        },
        None => default,
    }
}

/// A boolean switch: on exactly when the value is the text `true`.
pub fn flag_on(raw: Option<&str>) -> (r: bool)
    ensures
        r == match raw {
            Some(s) => s@ == "true"@,
            None => false,
        },
{
    match raw {
        Some(s) => str_eq(s, "true"),
        None => false,
    }
}

} // verus!
