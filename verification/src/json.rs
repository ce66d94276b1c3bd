//! The few operations on JSON documents that the client needs, each handed
//! to `serde_json`.
//!
//! A document is spoken of by what it holds: for every path of member names
//! that leads to a value, what stands there. The parser's result has a name,
//! [`json_parse`], and so has what a parsed value holds, [`json_contents`];
//! the contracts of the operations are stated over the two and are believed,
//! not proved.

use vstd::prelude::*;

verus! {

#[verifier::external_type_specification]
#[verifier::external_body]
pub struct ExJsonValue(serde_json::Value);

#[verifier::external_type_specification]
#[verifier::external_body]
pub struct ExJsonError(serde_json::Error);

/// What stands at one place of a document, as far as the client reads it.
pub enum JsonLeaf {
    /// A string.
    Text(Seq<char>),
    /// A number that is an integer of 64 bits.
    Integer(i64),
    /// Anything else.
    Other,
}

/// What `serde_json::from_str` makes of a text: nothing where it refuses the
/// text, else what the document holds.
pub uninterp spec fn json_parse(text: Seq<char>) -> Option<Map<Seq<Seq<char>>, JsonLeaf>>;

/// What a JSON value holds: for every path of member names that leads from
/// it through objects to a value, what stands there. The empty path leads to
/// the value itself.
pub uninterp spec fn json_contents(value: serde_json::Value) -> Map<Seq<Seq<char>>, JsonLeaf>;

/// What the member `key` of a document holds, where it has that member.
pub open spec fn below(doc: Map<Seq<Seq<char>>, JsonLeaf>, key: Seq<char>) -> Map<
    Seq<Seq<char>>,
    JsonLeaf,
> {
    Map::new(
        |path: Seq<Seq<char>>| doc.contains_key(seq![key] + path),
        |path: Seq<Seq<char>>| doc[seq![key] + path],
    )
}

/// Whether a document has the member `key`.
pub open spec fn has_member(doc: Map<Seq<Seq<char>>, JsonLeaf>, key: Seq<char>) -> bool {
    doc.contains_key(seq![key])
}

/// The member `key` of a document, where it is a string.
pub open spec fn member_text(doc: Map<Seq<Seq<char>>, JsonLeaf>, key: Seq<char>) -> Option<
    Seq<char>,
> {
    if has_member(doc, key) {
        match doc[seq![key]] {
            JsonLeaf::Text(text) => Some(text),
            _ => None,
        }
    } else {
        None
    }
}

/// The member `key` of a document, where it is an integer of 64 bits.
pub open spec fn member_integer(doc: Map<Seq<Seq<char>>, JsonLeaf>, key: Seq<char>) -> Option<
    i64,
> {
    if has_member(doc, key) {
        match doc[seq![key]] {
            JsonLeaf::Integer(number) => Some(number),
            _ => None,
        }
    } else {
        None
    }
}

/// The member `key` of a document is what the empty path leads to in what
/// that member holds.
pub proof fn lemma_member_root(doc: Map<Seq<Seq<char>>, JsonLeaf>, key: Seq<char>)
    ensures
        below(doc, key).contains_key(Seq::empty()) == has_member(doc, key),
        has_member(doc, key) ==> below(doc, key)[Seq::empty()] == doc[seq![key]],
{
    assert(seq![key] + Seq::<Seq<char>>::empty() =~= seq![key]);
}

/// Calls `serde_json::from_str` for a `serde_json::Value`. The contract
/// claims that the outcome is a function of the text: an error exactly where
/// [`json_parse`] has nothing, else a value that holds what it names.
#[verifier::external_body]
pub(crate) fn parse_document(text: &str) -> (document: Result<
    serde_json::Value,
    serde_json::Error,
>)
    ensures
        match document {
            Ok(value) => json_parse(text@) == Some(json_contents(value)),
            Err(_) => json_parse(text@).is_none(),
        },
{
    serde_json::from_str::<serde_json::Value>(text)
}

/// Calls `serde_json::Value::get` with a string key. The contract claims
/// that it finds a value exactly where the value is an object with that
/// member, and that what is found holds what the object holds below the key.
#[verifier::external_body]
pub(crate) fn member<'a>(value: &'a serde_json::Value, key: &str) -> (found: Option<
    &'a serde_json::Value,
>)
    ensures
        match found {
            Some(inner) => has_member(json_contents(*value), key@) && json_contents(*inner)
                == below(json_contents(*value), key@),
            None => !has_member(json_contents(*value), key@),
        },
{
    value.get(key)
}

/// Calls `serde_json::Value::as_str`. The contract claims that it hands out
/// the text exactly where the value itself is a string.
#[verifier::external_body]
pub(crate) fn as_text<'a>(value: &'a serde_json::Value) -> (text: Option<&'a str>)
    ensures
        match text {
            Some(text) => json_contents(*value).contains_key(Seq::empty()) && json_contents(
                *value,
            )[Seq::empty()] == JsonLeaf::Text(text@),
            None => !(json_contents(*value).contains_key(Seq::empty()) && json_contents(
                *value,
            )[Seq::empty()] is Text),
        },
{
    value.as_str()
}

/// Calls `serde_json::Value::as_i64`. The contract claims that it hands out
/// the number exactly where the value itself is an integer of 64 bits.
#[verifier::external_body]
pub(crate) fn as_integer(value: &serde_json::Value) -> (number: Option<i64>)
    ensures
        match number {
            Some(number) => json_contents(*value).contains_key(Seq::empty()) && json_contents(
                *value,
            )[Seq::empty()] == JsonLeaf::Integer(number),
            None => !(json_contents(*value).contains_key(Seq::empty()) && json_contents(
                *value,
            )[Seq::empty()] is Integer),
        },
{
    value.as_i64()
}

/// Renders a `serde_json::Error` through its `Display` impl. Nothing is
/// claimed of the text.
#[verifier::external_body]
pub(crate) fn error_text(error: &serde_json::Error) -> (text: String) {
    error.to_string()
}

} // verus!
