//! What the event payloads take from `serde_json`: one integer member read out
//! of a document, and a string written as a JSON literal.
//!
//! Both results are functions of the texts handed in and nothing else. They are
//! named here, and the contracts of the callers speak of those names.

use vstd::prelude::*;

verus! {

/// The integer that `serde_json` finds under `key` at the top level of the JSON
/// document `text`: `None` where `text` is no JSON document, where it has no
/// member `key`, or where that member is not an integer that fits 64 signed bits.
pub uninterp spec fn member_i64_of(text: Seq<char>, key: Seq<char>) -> Option<i64>;

/// The JSON string literal that `serde_json` writes for `s`: the characters of
/// `s` between double quotes, escaped where JSON asks for it.
pub uninterp spec fn string_literal_of(s: Seq<char>) -> Seq<char>;

/// Parses `text` with `serde_json::from_str` into a `serde_json::Value`, looks
/// `key` up with `Value::get` and reads the member with `Value::as_i64`.
///
/// Trusted: the result is a function of the two texts alone, which is all the
/// contract claims by giving it a name.
#[verifier::external_body]
pub(crate) fn member_i64(text: &str, key: &str) -> (found: Option<i64>)
    ensures
        found == member_i64_of(text@, key@),
{
    let document: serde_json::Value = serde_json::from_str(text).ok()?;
    document.get(key)?.as_i64()
}

/// Makes a `serde_json::Value` of `s` with `Value::from` and writes it in the
/// compact form with its `Display` impl, through `to_string`.
///
/// Trusted: the result is a function of the characters of `s` alone, which is
/// all the contract claims by giving it a name.
#[verifier::external_body]
pub(crate) fn string_literal(s: &str) -> (literal: String)
    ensures
        literal@ == string_literal_of(s@),
{
    serde_json::Value::from(s).to_string()
}

} // verus!
