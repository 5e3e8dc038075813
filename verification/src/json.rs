//! The JSON documents that hold a configuration, read and written by
//! `serde_json`. Nothing in this file is proved: each function states what
//! the library relies on from that crate.

use vstd::prelude::*;

verus! {

/// `serde_json::Value`, a parsed JSON document. The library looks into one
/// through `string_member` only.
#[verifier::external_type_specification]
#[verifier::external_body]
pub struct ExValue(serde_json::Value);

/// `serde_json::Error`, why a text is no JSON document. The library reads
/// nothing in it.
#[verifier::external_type_specification]
#[verifier::external_body]
pub struct ExError(serde_json::Error);

/// `serde_json::Map`, the members of a JSON object. The library fills one
/// through `put_string` only.
#[verifier::external_type_specification]
#[verifier::external_body]
#[verifier::reject_recursive_types(K)]
#[verifier::reject_recursive_types(V)]
pub struct ExObject<K, V>(serde_json::Map<K, V>);

/// The members of a parsed document that are strings, each under its key.
/// A document that is no object has none.
pub uninterp spec fn value_strings(value: serde_json::Value) -> Map<Seq<char>, Seq<char>>;

/// The members of an object that are strings, each under its key.
pub uninterp spec fn object_strings(object: serde_json::Map<String, serde_json::Value>) -> Map<
    Seq<char>,
    Seq<char>,
>;

/// Whether every member of an object is a string, so that its string
/// members are all it holds.
pub uninterp spec fn strings_only(object: serde_json::Map<String, serde_json::Value>) -> bool;

/// An object without members.
pub open spec fn no_members() -> Map<Seq<char>, Seq<char>> {
    Map::empty()
}

/// What `serde_json` reads in a text: nothing when the text is no JSON
/// document, else the string members of the document.
pub uninterp spec fn document_strings(text: Seq<char>) -> Option<Map<Seq<char>, Seq<char>>>;

/// The text that `serde_json` writes, pretty-printed, for an object that
/// holds these string members and nothing else.
pub uninterp spec fn pretty_text(members: Map<Seq<char>, Seq<char>>) -> Seq<char>;

/// `serde_json::from_str` into a `Value`: fails exactly on the texts that
/// `document_strings` gives nothing for, and otherwise returns the document
/// whose string members `document_strings` names.
#[verifier::external_body]
pub(crate) fn parse_document(text: &str) -> (parsed: Result<serde_json::Value, serde_json::Error>)
    ensures
        parsed is Ok <==> document_strings(text@) is Some,
        parsed is Ok ==> document_strings(text@) == Some(value_strings(parsed->Ok_0)),
{
    serde_json::from_str::<serde_json::Value>(text)
}

/// `Value::get` with a string key, followed by a look at the variant found:
/// the member's string where the document is an object that holds a string
/// under `key`, nothing in every other case.
#[verifier::external_body]
pub(crate) fn string_member(value: &serde_json::Value, key: &str) -> (found: Option<String>)
    ensures
        found is Some <==> value_strings(*value).contains_key(key@),
        found is Some ==> found->0@ == value_strings(*value)[key@],
{
    match value.get(key) {
        Some(serde_json::Value::String(s)) => Some(s.clone()),
        _ => None,
    }
}

/// `serde_json::Map::new`: an object without members, which therefore holds
/// nothing that is no string.
#[verifier::external_body]
pub(crate) fn empty_object() -> (made: serde_json::Map<String, serde_json::Value>)
    ensures
        object_strings(made) == no_members(),
        strings_only(made),
{
    serde_json::Map::new()
}

/// `serde_json::Map::insert` of a string value: afterwards the object holds
/// `value` under `key`, in place of what stood there, and its other members
/// as before; an object of strings stays one.
#[verifier::external_body]
pub(crate) fn put_string(
    object: &mut serde_json::Map<String, serde_json::Value>,
    key: &str,
    value: &str,
)
    ensures
        object_strings(*final(object)) == object_strings(*old(object)).insert(key@, value@),
        strings_only(*old(object)) ==> strings_only(*final(object)),
{
    object.insert(key.to_string(), serde_json::Value::String(value.to_string()));
}

/// `serde_json::to_string_pretty` of an object whose members are all
/// strings: the text depends on those members alone, since the object keeps
/// them ordered by key. Writing such an object cannot fail. Of an object
/// with other members nothing is claimed: it is not admitted.
#[verifier::external_body]
pub(crate) fn render_pretty(object: &serde_json::Map<String, serde_json::Value>) -> (text: String)
    requires
        strings_only(*object),
    ensures
        text@ == pretty_text(object_strings(*object)),
{
    serde_json::to_string_pretty(object).unwrap_or_default()
}

} // verus!
