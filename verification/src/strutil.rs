//! Small verified helpers for comparing and copying strings.

use vstd::prelude::*;

verus! {

/// Compares two string slices; true exactly when their character sequences
/// are equal.
pub fn str_eq(a: &str, b: &str) -> (r: bool)
    ensures
        r == (a@ == b@),
{
    let sa: String = a.to_owned();
    let sb: String = b.to_owned();
    sa == sb
}

/// Compares two owned strings; true exactly when their character sequences
/// are equal.
pub fn string_eq(a: &String, b: &String) -> (r: bool)
    ensures
        r == (a@ == b@),
{
    *a == *b
}

/// Copies a string, preserving its character sequence.
pub fn string_copy(a: &String) -> (r: String)
    ensures
        r@ == a@,
{
    a.clone()
}

/// Copies an optional string, preserving the character sequence.
pub fn opt_string_copy(a: &Option<String>) -> (r: Option<String>)
    ensures
        r.deep_view() == a.deep_view(),
{
    match a {
        Some(s) => Some(s.clone()),
        None => None,
    }
}

} // verus!
