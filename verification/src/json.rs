//! The calls into `serde_json`. Nothing in this file is proved: each contract
//! says what the library takes on trust of the function it names.
//!
//! A JSON value is opaque here. What the functions of `serde_json` make of a
//! value or a text is given a name, and the rest of the library reasons over
//! those names.
use vstd::prelude::*;

verus! {

/// `serde_json::Value`, of which nothing is known but what the names below
/// say.
#[verifier::external_type_specification]
#[verifier::external_body]
pub struct ExJsonValue(serde_json::Value);

/// `serde_json::Error`, of which nothing is known but its text.
#[verifier::external_type_specification]
#[verifier::external_body]
pub struct ExJsonError(serde_json::Error);

/// What `serde_json::from_str` makes of a text when asked for a `Value`: the
/// document, or `None` where it fails on the text.
pub uninterp spec fn json_parsed(text: Seq<char>) -> Option<serde_json::Value>;

/// What `Value::get` finds in a document under a string key: the member of
/// that name where the document is an object that has one.
pub uninterp spec fn json_member(doc: serde_json::Value, key: Seq<char>) -> Option<
    serde_json::Value,
>;

/// What `Value::as_str` finds in a value: its text where it is a string.
pub uninterp spec fn json_text(value: serde_json::Value) -> Option<Seq<char>>;

/// The object that `Value::from_iter` collects from the one pair of a key and
/// a text.
pub uninterp spec fn json_object(key: Seq<char>, text: Seq<char>) -> serde_json::Value;

/// What `serde_json::to_vec_pretty` makes of a value: the bytes of the
/// indented text, or `None` where it fails on the value.
pub uninterp spec fn json_pretty(doc: serde_json::Value) -> Option<Seq<u8>>;

/// `serde_json::from_str::<Value>`: whether it succeeds, and the document
/// it then gives, is a function of the text.
#[verifier::external_body]
pub(crate) fn parse(text: &str) -> (r: Result<serde_json::Value, serde_json::Error>)
    ensures
        match r {
            Ok(doc) => json_parsed(text@) == Some(doc),
            Err(_) => json_parsed(text@) is None,
        },
{
    serde_json::from_str(text)
}

/// `Value::get` with a string key: the result is a function of the document
/// and the key.
#[verifier::external_body]
pub(crate) fn member<'a>(doc: &'a serde_json::Value, key: &str) -> (r: Option<
    &'a serde_json::Value,
>)
    ensures
        match r {
            Some(found) => json_member(*doc, key@) == Some(*found),
            None => json_member(*doc, key@) is None,
        },
{
    doc.get(key)
}

/// `Value::as_str`: the result is a function of the value.
#[verifier::external_body]
pub(crate) fn text_of<'a>(value: &'a serde_json::Value) -> (r: Option<&'a str>)
    ensures
        match r {
            Some(text) => json_text(*value) == Some(text@),
            None => json_text(*value) is None,
        },
{
    value.as_str()
}

/// `Value::from_iter` on one pair of string slices: the result is a function
/// of the key and the text. It is an object with one member: `Value::get`
/// finds a member under the key and under no other, and `Value::as_str` finds
/// the text in that member.
#[verifier::external_body]
pub(crate) fn object_of(key: &str, text: &str) -> (r: serde_json::Value)
    ensures
        r == json_object(key@, text@),
        json_member(r, key@) is Some,
        json_text(json_member(r, key@)->0) == Some(text@),
        forall|other: Seq<char>| other != key@ ==> json_member(r, other) is None,
{
    serde_json::Value::from_iter([(key, text)])
}

/// `serde_json::to_vec_pretty` on a `Value`: whether it succeeds, and the
/// bytes it then gives, is a function of the value.
#[verifier::external_body]
pub(crate) fn pretty(doc: &serde_json::Value) -> (r: Result<Vec<u8>, serde_json::Error>)
    ensures
        match r {
            Ok(bytes) => json_pretty(*doc) == Some(bytes@),
            Err(_) => json_pretty(*doc) is None,
        },
{
    serde_json::to_vec_pretty(doc)
}

/// `to_string` on an error of `serde_json`. Nothing is claimed of the text:
/// where the error wraps one of the operating system, the text is the
/// system's.
#[verifier::external_body]
pub(crate) fn error_text(error: &serde_json::Error) -> String {
    error.to_string()
}

} // verus!
