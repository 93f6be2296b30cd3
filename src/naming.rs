//! Normalisation of raw document keys into identifiers.

use heck::{ToPascalCase, ToSnakeCase};
use regex::Regex;
use vstd::prelude::*;

verus! {

/// A character that may stand in an identifier unchanged: an ASCII letter,
/// an ASCII digit or an underscore.
pub open spec fn is_ident_char(c: char) -> bool {
    ('a' <= c && c <= 'z') || ('A' <= c && c <= 'Z') || ('0' <= c && c <= '9') || c == '_'
}

/// `s` with every character that is not an identifier character replaced
/// by an underscore.
pub open spec fn sanitized(s: Seq<char>) -> Seq<char> {
    Seq::new(s.len(), |i: int| if is_ident_char(s[i]) { s[i] } else { '_' })
}

/// What `heck` makes of a string in lower snake case.
pub uninterp spec fn snake_of(s: Seq<char>) -> Seq<char>;

/// What `heck` makes of a string in upper camel (Pascal) case.
pub uninterp spec fn pascal_of(s: Seq<char>) -> Seq<char>;

/// The field identifier of a raw key.
pub open spec fn field_ident(raw: Seq<char>) -> Seq<char> {
    snake_of(sanitized(raw))
}

/// The type identifier of a raw key.
pub open spec fn type_ident(raw: Seq<char>) -> Seq<char> {
    pascal_of(sanitized(raw))
}

/// Relies on `regex::Regex::replace_all` with the pattern `[^a-zA-Z0-9_]`:
/// every match is a single character outside the class, and each one is
/// replaced by `_`. The pattern is valid, so `Regex::new` does not fail.
#[verifier::external_body]
fn regex_sanitize(name: &str) -> (r: String)
    ensures
        r@ == sanitized(name@),
{
    let re = Regex::new(r"[^a-zA-Z0-9_]").unwrap();
    re.replace_all(name, "_").to_string()
}

/// Relies on `heck::ToSnakeCase::to_snake_case` for `str`.
#[verifier::external_body]
fn heck_snake(s: &str) -> (r: String)
    ensures
        r@ == snake_of(s@),
{
    s.to_snake_case()
}

/// Relies on `heck::ToPascalCase::to_pascal_case` for `str`.
#[verifier::external_body]
fn heck_pascal(s: &str) -> (r: String)
    ensures
        r@ == pascal_of(s@),
{
    s.to_pascal_case()
}

/// Replaces every character outside `[A-Za-z0-9_]` with an underscore.
pub fn replace_invalid_names(name: &str) -> (r: String)
    ensures
        r@ == sanitized(name@),
        r@.len() == name@.len(),
        forall|i: int| 0 <= i < r@.len() ==> is_ident_char(#[trigger] r@[i]),
{
    let r = regex_sanitize(name);
    assert forall|i: int| 0 <= i < r@.len() implies is_ident_char(#[trigger] r@[i]) by {
        assert(r@[i] == sanitized(name@)[i]);
    }
    r
}

/// The field identifier (lower snake case) of a raw key.
pub fn to_snake_case(name: &str) -> (r: String)
    ensures
        r@ == field_ident(name@),
{
    let sanitized = replace_invalid_names(name);
    heck_snake(sanitized.as_str())
}

/// The type identifier (upper camel case) of a raw key.
pub fn to_pascal_case(name: &str) -> (r: String)
    ensures
        r@ == type_ident(name@),
{
    let sanitized = replace_invalid_names(name);
    heck_pascal(sanitized.as_str())
}

} // verus!
