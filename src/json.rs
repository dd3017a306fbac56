use vstd::prelude::*;

verus! {

/// What a JSON value holds, as far as the control protocol reads it:
/// a string, an integer number (serde_json holds those from `i64::MIN` to
/// `u64::MAX` exactly), an object with its members, or anything else (null,
/// a boolean, an array, a fraction, an integer read as a float).
pub enum Json {
    Text(Seq<char>),
    Integer(int),
    Object(Map<Seq<char>, Json>),
    Other,
}

#[verifier::external_type_specification]
#[verifier::external_body]
pub struct ExValue(serde_json::Value);

#[verifier::external_type_specification]
#[verifier::external_body]
pub struct ExError(serde_json::Error);

/// The document that serde_json reads from a text, `None` where the text is
/// not one well-formed JSON value.
pub uninterp spec fn json_parse(text: Seq<char>) -> Option<Json>;

/// What a serde_json value holds.
pub uninterp spec fn json_model(v: serde_json::Value) -> Json;

/// Relies on `serde_json::from_str::<Value>`: the whole text is read as one
/// JSON value, or an error comes back.
#[verifier::external_body]
pub(crate) fn parse_json(text: &str) -> (r: Result<serde_json::Value, serde_json::Error>)
    ensures
        r is Ok <==> json_parse(text@) is Some,
        r is Ok ==> json_model(r->Ok_0) == json_parse(text@)->Some_0,
{
    serde_json::from_str(text)
}

/// Relies on `serde_json::Value::get` with a string key: the member under
/// that key of an object, and `None` for a missing key or a value that is
/// not an object.
#[verifier::external_body]
pub(crate) fn member<'a>(v: &'a serde_json::Value, key: &str) -> (r: Option<&'a serde_json::Value>)
    ensures
        r is Some <==> (json_model(*v) is Object && json_model(*v)->Object_0.contains_key(key@)),
        r is Some ==> json_model(*r->Some_0) == json_model(*v)->Object_0[key@],
{
    v.get(key)
}

/// Relies on `serde_json::Value::is_object`.
pub assume_specification[ serde_json::Value::is_object ](v: &serde_json::Value) -> (r: bool)
    ensures
        r == (json_model(*v) is Object),
;

/// Relies on `serde_json::Value::as_str`: the string of a string value.
pub assume_specification[ serde_json::Value::as_str ](v: &serde_json::Value) -> (r: Option<&str>)
    ensures
        r is Some <==> json_model(*v) is Text,
        r is Some ==> r->Some_0@ == json_model(*v)->Text_0,
;

/// Relies on `serde_json::Value::as_i64`: the number of an integer value
/// that fits in an `i64`.
pub assume_specification[ serde_json::Value::as_i64 ](v: &serde_json::Value) -> (r: Option<i64>)
    ensures
        r == (match json_model(*v) {
            Json::Integer(n) => if i64::MIN <= n <= i64::MAX {
                Some(n as i64)
            } else {
                None
            },
            _ => None,
        }),
;

/// Relies on `serde_json::Value::as_u64`: the number of an integer value
/// that fits in a `u64`.
pub assume_specification[ serde_json::Value::as_u64 ](v: &serde_json::Value) -> (r: Option<u64>)
    ensures
        r == (match json_model(*v) {
            Json::Integer(n) => if 0 <= n <= u64::MAX {
                Some(n as u64)
            } else {
                None
            },
            _ => None,
        }),
;

} // verus!
