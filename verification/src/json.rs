//! The questions this library asks of a JSON document.
//!
//! Parsing and navigation are the work of `serde_json`. What its functions
//! return is not proved here: each answer is given a name, and the functions
//! of this module are trusted to return the value of that name.

use vstd::prelude::*;

verus! {

#[verifier::external_type_specification]
#[verifier::external_body]
pub struct ExValue(serde_json::Value);

#[verifier::external_type_specification]
#[verifier::external_body]
pub struct ExError(serde_json::Error);

/// The document that `serde_json::from_str` reads from a text, or `None`
/// where it reports an error.
pub uninterp spec fn parsed(text: Seq<char>) -> Option<serde_json::Value>;

/// What `serde_json::Value::get` finds under a string key: the member, or
/// `None` where the value is no object or has no such member.
pub uninterp spec fn member(value: serde_json::Value, key: Seq<char>) -> Option<serde_json::Value>;

/// What `serde_json::Value::as_u64` returns.
pub uninterp spec fn unsigned(value: serde_json::Value) -> Option<u64>;

/// What `serde_json::Value::as_i64` returns.
pub uninterp spec fn signed(value: serde_json::Value) -> Option<i64>;

/// What `serde_json::Value::is_null` returns.
pub uninterp spec fn null(value: serde_json::Value) -> bool;

/// The members of an object, each with its name, in the order in which
/// `serde_json::Map::iter` goes through them; `None` where
/// `serde_json::Value::as_object` finds no object.
pub uninterp spec fn members(value: serde_json::Value) -> Option<
    Seq<(Seq<char>, serde_json::Value)>,
>;

/// The items of an array in their order; `None` where
/// `serde_json::Value::as_array` finds no array.
pub uninterp spec fn items(value: serde_json::Value) -> Option<Seq<serde_json::Value>>;

/// The text that a value is displayed as: what its `to_string` returns.
pub uninterp spec fn rendered(value: serde_json::Value) -> Seq<char>;

/// The members that a list of pairs stands for.
pub open spec fn members_of_pairs(pairs: Seq<(String, &serde_json::Value)>) -> Seq<
    (Seq<char>, serde_json::Value),
> {
    Seq::new(pairs.len(), |i: int| (pairs[i].0@, *pairs[i].1))
}

/// The items that a list of references stands for.
pub open spec fn items_of_refs(refs: Seq<&serde_json::Value>) -> Seq<serde_json::Value> {
    Seq::new(refs.len(), |i: int| *refs[i])
}

/// `serde_json::from_str` at type `Value`: the document that the text holds,
/// or an error where the text is not one JSON document. Trusted to return
/// [`parsed`] of the text where it returns a document, and an error where
/// that is `None`.
#[verifier::external_body]
pub(crate) fn parse(text: &str) -> (doc: Result<serde_json::Value, serde_json::Error>)
    ensures
        match doc {
            Ok(value) => parsed(text@) == Some(value),
            Err(_) => parsed(text@).is_none(),
        },
{
    serde_json::from_str::<serde_json::Value>(text)
}

/// `serde_json::Value::get` with a string key. Trusted to return [`member`]
/// of the value and the key.
#[verifier::external_body]
pub(crate) fn lookup<'a>(value: &'a serde_json::Value, key: &str) -> (found: Option<
    &'a serde_json::Value,
>)
    ensures
        match found {
            Some(v) => member(*value, key@) == Some(*v),
            None => member(*value, key@).is_none(),
        },
{
    value.get(key)
}

/// `serde_json::Value::as_u64`. Trusted to return [`unsigned`] of the value.
#[verifier::external_body]
pub(crate) fn as_u64(value: &serde_json::Value) -> (n: Option<u64>)
    ensures
        n == unsigned(*value),
{
    value.as_u64()
}

/// `serde_json::Value::as_i64`. Trusted to return [`signed`] of the value.
#[verifier::external_body]
pub(crate) fn as_i64(value: &serde_json::Value) -> (n: Option<i64>)
    ensures
        n == signed(*value),
{
    value.as_i64()
}

/// `serde_json::Value::is_null`. Trusted to return [`null`] of the value.
#[verifier::external_body]
pub(crate) fn is_null(value: &serde_json::Value) -> (b: bool)
    ensures
        b == null(*value),
{
    value.is_null()
}

/// `serde_json::Value::as_object` and `serde_json::Map::iter`: the members
/// of an object, each name copied and each value by reference. Trusted to
/// return [`members`] of the value.
#[verifier::external_body]
pub(crate) fn object_members<'a>(value: &'a serde_json::Value) -> (found: Option<
    Vec<(String, &'a serde_json::Value)>,
>)
    ensures
        match found {
            Some(pairs) => members(*value) == Some(members_of_pairs(pairs@)),
            None => members(*value).is_none(),
        },
{
    value.as_object().map(|map| map.iter().map(|(k, v)| (k.clone(), v)).collect())
}

/// `serde_json::Value::as_array`: the items of an array, by reference.
/// Trusted to return [`items`] of the value.
#[verifier::external_body]
pub(crate) fn array_items<'a>(value: &'a serde_json::Value) -> (found: Option<
    Vec<&'a serde_json::Value>,
>)
    ensures
        match found {
            Some(refs) => items(*value) == Some(items_of_refs(refs@)),
            None => items(*value).is_none(),
        },
{
    value.as_array().map(|array| array.iter().collect())
}

/// `to_string` of a `serde_json::Value`, which goes through its `Display`.
/// Trusted to return [`rendered`] of the value.
#[verifier::external_body]
pub(crate) fn render(value: &serde_json::Value) -> (text: String)
    ensures
        text@ == rendered(*value),
{
    value.to_string()
}

} // verus!
