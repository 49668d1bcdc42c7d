//! A mathematical model of JSON documents, and trusted views of
//! `serde_json` values through it.  A parsed document is modelled as a
//! `JsonData` tree; every accessor's contract is stated against that tree.

use vstd::prelude::*;

verus! {

/// The shape of a JSON document.  A number is modelled by the `u64` it
/// yields when read as an unsigned integer, if any; that is all this
/// library ever reads from a number.
pub enum JsonData {
    Null,
    Bool(bool),
    Num(Option<u64>),
    Str(Seq<char>),
    Arr(Seq<JsonData>),
    Obj(Map<Seq<char>, JsonData>),
}

#[verifier::external_type_specification]
#[verifier::external_body]
pub struct ExValue(serde_json::Value);

/// The `JsonData` tree that a `serde_json::Value` holds.
pub uninterp spec fn json_of(v: serde_json::Value) -> JsonData;

/// The `JsonData` tree that a string parses to, if it is valid JSON.
pub uninterp spec fn json_parsed(s: Seq<char>) -> Option<JsonData>;

/// Relies on `serde_json::from_str::<Value>`: parsing succeeds exactly on
/// valid JSON text, and the parsed value depends on the text alone.
#[verifier::external_body]
pub fn parse_json(s: &str) -> (r: Option<serde_json::Value>)
    ensures
        r is Some <==> json_parsed(s@) is Some,
        r is Some ==> json_of(r->Some_0) == json_parsed(s@)->Some_0,
{
    serde_json::from_str(s).ok()
}

/// Relies on `serde_json::Value::get` with a string index: on an object
/// it looks the key up, on anything else it returns `None`.
#[verifier::external_body]
pub fn value_get<'a>(v: &'a serde_json::Value, key: &str) -> (r: Option<&'a serde_json::Value>)
    ensures
        json_of(*v) is Obj ==> {
            &&& r is Some <==> json_of(*v)->Obj_0.contains_key(key@)
            &&& r is Some ==> json_of(*r->Some_0) == json_of(*v)->Obj_0[key@]
        },
        !(json_of(*v) is Obj) ==> r is None,
{
    v.get(key)
}

/// Relies on `serde_json::Value::is_object`.
#[verifier::external_body]
pub fn value_is_object(v: &serde_json::Value) -> (r: bool)
    ensures
        r <==> json_of(*v) is Obj,
{
    v.is_object()
}

/// Relies on `serde_json::Value::as_str`: `Some` exactly on strings.
#[verifier::external_body]
pub fn value_as_str<'a>(v: &'a serde_json::Value) -> (r: Option<&'a str>)
    ensures
        r is Some <==> json_of(*v) is Str,
        r is Some ==> r->Some_0@ == json_of(*v)->Str_0,
{
    v.as_str()
}

/// Relies on `serde_json::Value::as_u64`: `Some` exactly on numbers that
/// can be read as a `u64`.
#[verifier::external_body]
pub fn value_as_u64(v: &serde_json::Value) -> (r: Option<u64>)
    ensures
        json_of(*v) is Num ==> r == json_of(*v)->Num_0,
        !(json_of(*v) is Num) ==> r is None,
{
    v.as_u64()
}

/// Relies on `serde_json::Value::as_array`: `Some` exactly on arrays,
/// yielding the elements in order.
#[verifier::external_body]
pub fn value_as_array<'a>(v: &'a serde_json::Value) -> (r: Option<&'a Vec<serde_json::Value>>)
    ensures
        r is Some <==> json_of(*v) is Arr,
        r is Some ==> r->Some_0@.map_values(|x: serde_json::Value| json_of(x)) == json_of(
            *v,
        )->Arr_0,
{
    v.as_array()
}

/// The string under `key` in `m`, when there is one.
pub open spec fn obj_str(m: Map<Seq<char>, JsonData>, key: Seq<char>) -> Option<Seq<char>> {
    if m.contains_key(key) && m[key] is Str {
        Some(m[key]->Str_0)
    } else {
        None
    }
}

/// The object under `key` in `m`, when there is one.
pub open spec fn obj_obj(m: Map<Seq<char>, JsonData>, key: Seq<char>) -> Option<
    Map<Seq<char>, JsonData>,
> {
    if m.contains_key(key) && m[key] is Obj {
        Some(m[key]->Obj_0)
    } else {
        None
    }
}

/// The unsigned number under `key` in `m`, when there is one.
pub open spec fn obj_u64(m: Map<Seq<char>, JsonData>, key: Seq<char>) -> Option<u64> {
    if m.contains_key(key) && m[key] is Num {
        m[key]->Num_0
    } else {
        None
    }
}

/// Looks a string field up, as `obj_str` describes.
pub fn get_str<'a>(v: &'a serde_json::Value, key: &str) -> (r: Option<&'a str>)
    requires
        json_of(*v) is Obj,
    ensures
        r is Some <==> obj_str(json_of(*v)->Obj_0, key@) is Some,
        r is Some ==> r->Some_0@ == obj_str(json_of(*v)->Obj_0, key@)->Some_0,
{
    match value_get(v, key) {
        Some(inner) => value_as_str(inner),
        None => None,
    }
}

/// Looks an object field up, as `obj_obj` describes.
pub fn get_obj<'a>(v: &'a serde_json::Value, key: &str) -> (r: Option<&'a serde_json::Value>)
    requires
        json_of(*v) is Obj,
    ensures
        r is Some <==> obj_obj(json_of(*v)->Obj_0, key@) is Some,
        r is Some ==> json_of(*r->Some_0) is Obj && json_of(*r->Some_0)->Obj_0 == obj_obj(
            json_of(*v)->Obj_0,
            key@,
        )->Some_0,
{
    match value_get(v, key) {
        Some(inner) => if value_is_object(inner) {
            Some(inner)
        } else {
            None
        },
        None => None,
    }
}

/// Looks an unsigned number field up, as `obj_u64` describes.
pub fn get_u64(v: &serde_json::Value, key: &str) -> (r: Option<u64>)
    requires
        json_of(*v) is Obj,
    ensures
        r == obj_u64(json_of(*v)->Obj_0, key@),
{
    match value_get(v, key) {
        Some(inner) => value_as_u64(inner),
        None => None,
    }
}

} // verus!
