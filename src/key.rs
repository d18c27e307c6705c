//! Page keys: which instance of a page's data a request is about, read from
//! the query string by field name.
use vstd::prelude::*;

use crate::form::{first_value, has_field, FieldSeq, FormData};
use crate::text::{decimal_i64, decimal_u64, parse_i64, parse_u64, same_text};

verus! {

broadcast use vstd::string::group_string_axioms;

/// A key that can be read from query parameters. Keys read field by field
/// with the `arg_*` helpers, each of which falls back to the field type's
/// default where the parameter is missing or malformed.
pub trait RspKey: Sized {
    fn from_query_args(args: &FormData) -> Option<Self>;
}

/// The text of the parameter `name`, or the empty text.
pub open spec fn arg_text(f: FieldSeq, name: Seq<char>) -> Seq<char> {
    match first_value(f, name) {
        Some(v) => v,
        None => Seq::empty(),
    }
}

/// The integer that the parameter `name` writes, if it writes one.
pub open spec fn arg_number(f: FieldSeq, name: Seq<char>) -> Option<int> {
    match first_value(f, name) {
        Some(v) => decimal_i64(v),
        None => None,
    }
}

/// The `i32` that the parameter `name` writes, if it writes one in range.
pub open spec fn arg_number32(f: FieldSeq, name: Seq<char>) -> Option<int> {
    match arg_number(f, name) {
        Some(n) => if i32::MIN <= n <= i32::MAX { Some(n) } else { None },
        None => None,
    }
}

/// The unsigned integer that the parameter `name` writes, if it writes one.
pub open spec fn arg_unsigned(f: FieldSeq, name: Seq<char>) -> Option<int> {
    match first_value(f, name) {
        Some(v) => decimal_u64(v),
        None => None,
    }
}

/// The `u32` that the parameter `name` writes, if it writes one in range.
pub open spec fn arg_unsigned32(f: FieldSeq, name: Seq<char>) -> Option<int> {
    match arg_unsigned(f, name) {
        Some(n) => if n <= u32::MAX { Some(n) } else { None },
        None => None,
    }
}

/// Whether the parameter `name` is `true` or `1`.
pub open spec fn arg_flag(f: FieldSeq, name: Seq<char>) -> bool {
    match first_value(f, name) {
        Some(v) => v == seq!['t', 'r', 'u', 'e'] || v == seq!['1'],
        None => false,
    }
}

/// The text of the parameter `name`; empty where it is missing.
pub fn arg_string(args: &FormData, name: &str) -> (r: String)
    ensures
        r@ == arg_text(args@, name@),
{
    match args.first(name) {
        Some(v) => v,
        None => String::new(),
    }
}

/// The integer of the parameter `name`, where it is present and writes one.
pub fn arg_opt_i64(args: &FormData, name: &str) -> (r: Option<i64>)
    ensures
        r matches Some(n) ==> arg_number(args@, name@) == Some(n as int),
        r is None ==> arg_number(args@, name@) is None,
{
    match args.first(name) {
        Some(v) => parse_i64(v.as_str()),
        None => None,
    }
}

/// The integer of the parameter `name`; zero where it is missing or
/// malformed.
pub fn arg_i64(args: &FormData, name: &str) -> (r: i64)
    ensures
        r == (match arg_number(args@, name@) {
            Some(n) => n,
            None => 0,
        }),
{
    match arg_opt_i64(args, name) {
        Some(n) => n,
        None => 0,
    }
}

/// The `i32` of the parameter `name`, where it is present and writes one in
/// range.
pub fn arg_opt_i32(args: &FormData, name: &str) -> (r: Option<i32>)
    ensures
        r matches Some(n) ==> arg_number32(args@, name@) == Some(n as int),
        r is None ==> arg_number32(args@, name@) is None,
{
    match arg_opt_i64(args, name) {
        Some(n) => if i32::MIN as i64 <= n && n <= i32::MAX as i64 {
            Some(n as i32)
        } else {
            None
        },
        None => None,
    }
}

/// The `i32` of the parameter `name`; zero where it is missing, malformed or
/// out of range.
pub fn arg_i32(args: &FormData, name: &str) -> (r: i32)
    ensures
        r == (match arg_number32(args@, name@) {
            Some(n) => n,
            None => 0,
        }),
{
    match arg_opt_i32(args, name) {
        Some(n) => n,
        None => 0,
    }
}

/// The text of the parameter `name`, where it is present.
pub fn arg_opt_string(args: &FormData, name: &str) -> (r: Option<String>)
    ensures
        crate::form::opt_text(r) == first_value(args@, name@),
{
    args.first(name)
}

/// The unsigned integer of the parameter `name`, where it is present and
/// writes one.
pub fn arg_opt_u64(args: &FormData, name: &str) -> (r: Option<u64>)
    ensures
        r matches Some(n) ==> arg_unsigned(args@, name@) == Some(n as int),
        r is None ==> arg_unsigned(args@, name@) is None,
{
    match args.first(name) {
        Some(v) => parse_u64(v.as_str()),
        None => None,
    }
}

/// The unsigned integer of the parameter `name`; zero where it is missing
/// or malformed.
pub fn arg_u64(args: &FormData, name: &str) -> (r: u64)
    ensures
        r == (match arg_unsigned(args@, name@) {
            Some(n) => n,
            None => 0,
        }),
{
    match arg_opt_u64(args, name) {
        Some(n) => n,
        None => 0,
    }
}

/// The `u32` of the parameter `name`, where it is present and writes one in
/// range.
pub fn arg_opt_u32(args: &FormData, name: &str) -> (r: Option<u32>)
    ensures
        r matches Some(n) ==> arg_unsigned32(args@, name@) == Some(n as int),
        r is None ==> arg_unsigned32(args@, name@) is None,
{
    match arg_opt_u64(args, name) {
        Some(n) => if n <= u32::MAX as u64 {
            Some(n as u32)
        } else {
            None
        },
        None => None,
    }
}

/// The `u32` of the parameter `name`; zero where it is missing, malformed
/// or out of range.
pub fn arg_u32(args: &FormData, name: &str) -> (r: u32)
    ensures
        r == (match arg_unsigned32(args@, name@) {
            Some(n) => n,
            None => 0,
        }),
{
    match arg_opt_u32(args, name) {
        Some(n) => n,
        None => 0,
    }
}

/// Whether the parameter `name` is `true` or `1`; false where it is missing.
pub fn arg_bool(args: &FormData, name: &str) -> (r: bool)
    ensures
        r == arg_flag(args@, name@),
{
    proof {
        reveal_strlit("true");
        reveal_strlit("1");
        assert("true"@ =~= seq!['t', 'r', 'u', 'e']);
        assert("1"@ =~= seq!['1']);
    }
    match args.first(name) {
        Some(v) => same_text(v.as_str(), "true") || same_text(v.as_str(), "1"),
        None => false,
    }
}

/// Without the parameter `name`, every reading of it gives the default of
/// its type: the empty text, no integer (so zero), and false.
pub proof fn lemma_missing_arg_defaults(f: FieldSeq, name: Seq<char>)
    requires
        !has_field(f, name),
    ensures
        arg_text(f, name) == Seq::<char>::empty(),
        arg_number(f, name) is None,
        arg_number32(f, name) is None,
        arg_unsigned(f, name) is None,
        arg_unsigned32(f, name) is None,
        first_value(f, name) is None,
        !arg_flag(f, name),
{
}

} // verus!
