//! Trusted boundary to serde_json. The JSON text is parsed by serde_json into
//! a `serde_json::Value`; what such a value holds is given names by
//! uninterpreted spec functions, and each accessor the library calls gets a
//! wrapper whose contract speaks over those names. The schema extraction
//! itself is verified code in `api`.

use vstd::prelude::*;

verus! {

#[verifier::external_type_specification]
#[verifier::external_body]
pub struct ExValue(serde_json::Value);

/// What `serde_json::from_str::<Value>` returns on a given text: `Some`
/// exactly on a well-formed JSON document. The parse is a function of the
/// text alone.
pub uninterp spec fn parsed_json(s: Seq<char>) -> Option<serde_json::Value>;

/// The string a JSON value holds: `Some` exactly when the value is a JSON
/// string, as `Value::as_str` decides it.
pub uninterp spec fn str_content(v: serde_json::Value) -> Option<Seq<char>>;

/// The unsigned integer a JSON value holds: `Some` exactly when the value is
/// a JSON number representable as `u64`, as `Value::as_u64` decides it.
pub uninterp spec fn u64_content(v: serde_json::Value) -> Option<u64>;

/// The boolean a JSON value holds: `Some` exactly when the value is a JSON
/// boolean, as `Value::as_bool` decides it.
pub uninterp spec fn bool_content(v: serde_json::Value) -> Option<bool>;

/// The elements a JSON array holds, in document order: `Some` exactly when
/// the value is a JSON array, as `Value::as_array` decides it.
pub uninterp spec fn array_content(v: serde_json::Value) -> Option<Seq<serde_json::Value>>;

/// The member a JSON object holds under a key: `Some` exactly when the value
/// is a JSON object with that key, as `Value::get` decides it.
pub uninterp spec fn member_content(v: serde_json::Value, key: Seq<char>) -> Option<
    serde_json::Value,
>;

/// Relies on `serde_json::from_str::<Value>`: parses a complete JSON
/// document, `Err` exactly on malformed input; deterministic in the text.
#[verifier::external_body]
pub(crate) fn js_parse(s: &str) -> (r: Option<serde_json::Value>)
    ensures
        r == parsed_json(s@),
{
    serde_json::from_str(s).ok()
}

/// Relies on `serde_json::Value::get` with a string index: looks the key up
/// when the value is an object, `None` otherwise or when the key is absent.
#[verifier::external_body]
pub(crate) fn js_get<'a>(v: &'a serde_json::Value, key: &str) -> (r: Option<&'a serde_json::Value>)
    ensures
        match r {
            Some(m) => member_content(*v, key@) == Some(*m),
            None => member_content(*v, key@) is None,
        },
{
    v.get(key)
}

/// Relies on `serde_json::Value::as_str`: the string when the value is a JSON
/// string, `None` otherwise.
#[verifier::external_body]
pub(crate) fn js_as_str<'a>(v: &'a serde_json::Value) -> (r: Option<&'a str>)
    ensures
        match r {
            Some(s) => str_content(*v) == Some(s@),
            None => str_content(*v) is None,
        },
{
    v.as_str()
}

/// Relies on `serde_json::Value::as_u64`: the integer when the value is a
/// JSON number representable as `u64`, `None` otherwise.
#[verifier::external_body]
pub(crate) fn js_as_u64(v: &serde_json::Value) -> (r: Option<u64>)
    ensures
        r == u64_content(*v),
{
    v.as_u64()
}

/// Relies on `serde_json::Value::as_bool`: the boolean when the value is a
/// JSON boolean, `None` otherwise.
#[verifier::external_body]
pub(crate) fn js_as_bool(v: &serde_json::Value) -> (r: Option<bool>)
    ensures
        r == bool_content(*v),
{
    v.as_bool()
}

/// Relies on `serde_json::Value::as_array`: the elements in document order
/// when the value is a JSON array, `None` otherwise.
#[verifier::external_body]
pub(crate) fn js_as_array<'a>(v: &'a serde_json::Value) -> (r: Option<&'a Vec<serde_json::Value>>)
    ensures
        match r {
            Some(a) => array_content(*v) == Some(a@),
            None => array_content(*v) is None,
        },
{
    v.as_array()
}

} // verus!
