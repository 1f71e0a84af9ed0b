//! JSON values as the `serde_json` crate holds them.
//!
//! Nothing in this module is proved. It declares the crate's types, gives a
//! mathematical model to the values they hold, and states what each function
//! of the crate that the library calls does to that model. The statements
//! are those of the crate as it is built by default: with numbers of 64
//! bits, and objects that keep their entries sorted by key.

use vstd::prelude::*;

verus! {

/// `serde_json::Value`: a JSON value. The verifier sees nothing inside one;
/// `value_json` names what it holds.
#[verifier::external_type_specification]
#[verifier::external_body]
pub struct ExValue(serde_json::Value);

/// `serde_json::Map`: the entries of a JSON object. The verifier sees
/// nothing inside one; `map_entries` names what it holds.
#[verifier::external_type_specification]
#[verifier::external_body]
#[verifier::reject_recursive_types(K)]
#[verifier::reject_recursive_types(V)]
pub struct ExMap<K, V>(serde_json::Map<K, V>);

/// `serde_json::Error`: what the parser and the printer report. The library
/// looks at none of it.
#[verifier::external_type_specification]
#[verifier::external_body]
pub struct ExError(serde_json::Error);

/// The mathematical model of a JSON value.
pub enum Json {
    /// `null`.
    Null,
    /// `true` or `false`.
    Bool(bool),
    /// An integer from zero up.
    Unsigned(u64),
    /// An integer below zero.
    Negative(i64),
    /// Any other number: one written with a fraction or an exponent, or too
    /// large for an integer of 64 bits. It is held in the binary64 format,
    /// and is given here by the 64 bits of that.
    Binary64(u64),
    /// A string, by its characters.
    String(Seq<char>),
    /// An array, by its elements in their order.
    Array(Seq<Json>),
    /// An object: each key occurs once, and the keys carry no order.
    Object(Map<Seq<char>, Json>),
}

/// The JSON value that a `serde_json::Value` holds.
pub uninterp spec fn value_json(v: serde_json::Value) -> Json;

/// The entries that a `serde_json::Map` holds.
pub uninterp spec fn map_entries(m: serde_json::Map<String, serde_json::Value>) -> Map<Seq<char>, Json>;

/// The entries of an object that has none.
pub open spec fn no_entries() -> Map<Seq<char>, Json> {
    Map::empty()
}

/// What `serde_json::from_str` reads from a text: the value, or `None` where
/// it reports an error.
pub uninterp spec fn parsed_json(text: Seq<char>) -> Option<Json>;

/// What `serde_json::to_string_pretty` writes for a value, or `None` where it
/// reports an error.
pub uninterp spec fn pretty_json(json: Json) -> Option<Seq<char>>;

/// `serde_json::from_str`, reading a `Value`. The result depends on the text
/// alone; the contract gives it the name `parsed_json`.
#[verifier::external_body]
pub(crate) fn parse(text: &str) -> (r: Result<serde_json::Value, serde_json::Error>)
    ensures
        match r {
            Ok(v) => parsed_json(text@) == Some(value_json(v)),
            Err(_) => parsed_json(text@) is None,
        },
{
    serde_json::from_str::<serde_json::Value>(text)
}

/// `serde_json::to_string_pretty` on a `Value`. The result depends on the
/// value alone; the contract gives it the name `pretty_json`.
#[verifier::external_body]
pub(crate) fn pretty(v: &serde_json::Value) -> (r: Result<String, serde_json::Error>)
    ensures
        match r {
            Ok(s) => pretty_json(value_json(*v)) == Some(s@),
            Err(_) => pretty_json(value_json(*v)) is None,
        },
{
    serde_json::to_string_pretty(v)
}

/// `Value::get` with a string index: the entry under `key` where the value is
/// an object that has one, else `None`.
#[verifier::external_body]
pub(crate) fn field<'a>(v: &'a serde_json::Value, key: &str) -> (r: Option<&'a serde_json::Value>)
    ensures
        match r {
            Some(x) => value_json(*v) matches Json::Object(m) && m.contains_key(key@) && m[key@] == value_json(*x),
            None => !(value_json(*v) matches Json::Object(m) && m.contains_key(key@)),
        },
{
    v.get(key)
}

/// `Value::as_u64`: the number where the value is an integer from zero up.
pub assume_specification[ serde_json::Value::as_u64 ](v: &serde_json::Value) -> (r: Option<u64>)
    ensures
        r == (match value_json(*v) {
            Json::Unsigned(n) => Some(n),
            _ => None,
        }),
;

/// `Value::as_str`: the text where the value is a string.
pub assume_specification<'a>[ serde_json::Value::as_str ](v: &'a serde_json::Value) -> (r: Option<&'a str>)
    ensures
        match r {
            Some(s) => value_json(*v) == Json::String(s@),
            None => !(value_json(*v) is String),
        },
;

/// `Value::as_array`: the elements where the value is an array.
pub assume_specification<'a>[ serde_json::Value::as_array ](v: &'a serde_json::Value) -> (r: Option<&'a Vec<serde_json::Value>>)
    ensures
        match r {
            Some(items) => value_json(*v) == Json::Array(items@.map_values(|x: serde_json::Value| value_json(x))),
            None => !(value_json(*v) is Array),
        },
;

/// `Value::from` on an unsigned integer: the number itself.
#[verifier::external_body]
pub(crate) fn unsigned(n: u64) -> (r: serde_json::Value)
    ensures
        value_json(r) == Json::Unsigned(n),
{
    serde_json::Value::from(n)
}

/// `Value::from` on a `String`: a string with the same text.
#[verifier::external_body]
pub(crate) fn string(s: String) -> (r: serde_json::Value)
    ensures
        value_json(r) == Json::String(s@),
{
    serde_json::Value::from(s)
}

/// `Value::from` on a `Vec` of values: an array of them, in their order.
#[verifier::external_body]
pub(crate) fn array(items: Vec<serde_json::Value>) -> (r: serde_json::Value)
    ensures
        value_json(r) == Json::Array(items@.map_values(|x: serde_json::Value| value_json(x))),
{
    serde_json::Value::from(items)
}

/// `Value::from` on a `Map`: an object with the map's entries.
#[verifier::external_body]
pub(crate) fn object(entries: serde_json::Map<String, serde_json::Value>) -> (r: serde_json::Value)
    ensures
        value_json(r) == Json::Object(map_entries(entries)),
{
    serde_json::Value::from(entries)
}

/// `Map::new`: a map without entries.
pub assume_specification[ serde_json::Map::<String, serde_json::Value>::new ]() -> (r: serde_json::Map<String, serde_json::Value>)
    ensures
        map_entries(r) == no_entries(),
;

/// `Map::insert`: the entry under `k` becomes `v`, the other entries stay,
/// and the value that `k` had before is returned.
pub assume_specification[ serde_json::Map::<String, serde_json::Value>::insert ](m: &mut serde_json::Map<String, serde_json::Value>, k: String, v: serde_json::Value) -> (r: Option<serde_json::Value>)
    ensures
        map_entries(*final(m)) == map_entries(*old(m)).insert(k@, value_json(v)),
        match r {
            Some(x) => map_entries(*old(m)).contains_key(k@) && map_entries(*old(m))[k@] == value_json(x),
            None => !map_entries(*old(m)).contains_key(k@),
        },
;

} // verus!
