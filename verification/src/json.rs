//! JSON documents, as `serde_json` reads and compares them.
//!
//! A [`Value`] is opaque to the verifier. Everything that this crate learns of one
//! it learns through the functions below, and their contracts are taken on trust:
//! each gives a name to what one function of `serde_json` returns.
use serde_json::Value;
use vstd::prelude::*;

verus! {

#[verifier::external_type_specification]
#[verifier::external_body]
pub struct ExValue(serde_json::Value);

/// What `serde_json::from_slice` makes of `data` when asked for a `Value`:
/// the document, or `None` where it reports an error.
pub uninterp spec fn json_document(data: Seq<u8>) -> Option<Value>;

/// What `Value::get` returns for a string key: the member of that name if `v`
/// is an object that has one, else `None`.
pub uninterp spec fn json_member(v: Value, key: Seq<char>) -> Option<Value>;

/// What `Value::as_str` returns: the text if `v` is a string, else `None`.
pub uninterp spec fn json_text(v: Value) -> Option<Seq<char>>;

/// What `Value::as_u64` returns: the number if `v` is an integer that fits in
/// `u64`, else `None`.
pub uninterp spec fn json_unsigned(v: Value) -> Option<u64>;

/// What `Value::as_array` returns: the elements if `v` is an array, else `None`.
pub uninterp spec fn json_elements(v: Value) -> Option<Seq<Value>>;

/// What `==` on two `Value`s returns.
pub uninterp spec fn json_same(a: Value, b: Value) -> bool;

/// Calls `serde_json::from_slice::<Value>`. The result is the document that
/// [`json_document`] names; an error of the parser becomes `None`.
#[verifier::external_body]
pub(crate) fn read_document(data: &[u8]) -> (r: Option<Value>)
    ensures
        r == json_document(data@),
{
    serde_json::from_slice::<Value>(data).ok()
}

/// Calls `Value::get` with a string key. The result is the member that
/// [`json_member`] names.
#[verifier::external_body]
pub(crate) fn member<'a>(v: &'a Value, key: &str) -> (r: Option<&'a Value>)
    ensures
        r is Some <==> json_member(*v, key@) is Some,
        r is Some ==> *r->0 == json_member(*v, key@)->0,
{
    v.get(key)
}

/// Calls `Value::as_str`. The result is the text that [`json_text`] names.
#[verifier::external_body]
pub(crate) fn text<'a>(v: &'a Value) -> (r: Option<&'a str>)
    ensures
        r is Some <==> json_text(*v) is Some,
        r is Some ==> r->0@ == json_text(*v)->0,
{
    v.as_str()
}

/// Calls `Value::as_u64`. The result is the number that [`json_unsigned`] names.
#[verifier::external_body]
pub(crate) fn unsigned(v: &Value) -> (r: Option<u64>)
    ensures
        r == json_unsigned(*v),
{
    v.as_u64()
}

/// Calls `Value::as_array`. The result holds the elements that
/// [`json_elements`] names.
#[verifier::external_body]
pub(crate) fn elements<'a>(v: &'a Value) -> (r: Option<&'a Vec<Value>>)
    ensures
        r is Some <==> json_elements(*v) is Some,
        r is Some ==> r->0@ == json_elements(*v)->0,
{
    v.as_array()
}

/// Calls `Value::clone`. The copy is the value it was made from.
#[verifier::external_body]
pub(crate) fn duplicate(v: &Value) -> (r: Value)
    ensures
        r == *v,
{
    v.clone()
}

/// Calls `Value::eq`. The result is the answer that [`json_same`] names.
#[verifier::external_body]
pub(crate) fn same(a: &Value, b: &Value) -> (r: bool)
    ensures
        r == json_same(*a, *b),
{
    a == b
}

} // verus!
