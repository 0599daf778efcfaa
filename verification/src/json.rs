//! A mathematical model of JSON values and the trusted boundary to `serde_json`.
//!
//! Every item marked `external_body` here makes one call into `serde_json` (or
//! std) and states, over [`JsonView`], what that call does; nothing here is proved.

use vstd::prelude::*;

verus! {

/// What a `serde_json::Value` holds, as a mathematical value.
///
/// Objects are finite maps from keys to values: serde_json keeps an object in a
/// `BTreeMap` (its `preserve_order` feature is off), so an object's contents fix
/// the order in which it is written.  Integers are exact; a floating-point number
/// is given by the bits of its (always finite) `f64`.
pub enum JsonView {
    Null,
    Bool(bool),
    Int(int),
    Float(u64),
    Str(Seq<char>),
    Array(Seq<JsonView>),
    Object(Map<Seq<char>, JsonView>),
}

#[verifier::external_type_specification]
#[verifier::external_body]
pub struct ExJsonValue(serde_json::Value);

#[verifier::external_type_specification]
#[verifier::external_body]
#[verifier::reject_recursive_types(K)]
#[verifier::reject_recursive_types(V)]
pub struct ExJsonMap<K, V>(serde_json::Map<K, V>);

/// What a `serde_json::Value` holds.
pub uninterp spec fn json_view(v: serde_json::Value) -> JsonView;

/// What a `serde_json::Map` holds.
pub uninterp spec fn json_map_view(m: serde_json::Map<String, serde_json::Value>) -> Map<
    Seq<char>,
    JsonView,
>;

/// What `serde_json::from_str::<Value>` gives for a text: the value, or the text
/// of the error.
pub uninterp spec fn parsed_json(text: Seq<char>) -> Result<JsonView, Seq<char>>;

/// The text that `serde_json::to_string` writes for a value.
pub uninterp spec fn json_text(v: JsonView) -> Seq<char>;

/// The text that `serde_json::to_string_pretty` writes for a value.
pub uninterp spec fn json_pretty_text(v: JsonView) -> Seq<char>;

/// The text that the `Display` impl of `serde_json::Value` writes for a value.
pub uninterp spec fn json_display_text(v: JsonView) -> Seq<char>;

/// The text that `String::from_utf8_lossy` makes of a byte sequence.
pub uninterp spec fn lossy_utf8(bytes: Seq<u8>) -> Seq<char>;

/// A value that is no array, object or floating-point number.
pub open spec fn json_scalar(v: JsonView) -> bool {
    v is Null || v is Bool || v is Int || v is Str
}

/// A scalar, or an array of strings.
pub open spec fn json_leaf(v: JsonView) -> bool {
    ||| json_scalar(v)
    ||| v matches JsonView::Array(items) && forall|i: int| 0 <= i < items.len() ==> #[trigger] items[i] is Str
}

/// A leaf, or an object whose values are all leaves.
pub open spec fn json_flat(v: JsonView) -> bool {
    ||| json_leaf(v)
    ||| v matches JsonView::Object(m) && forall|k: Seq<char>| #[trigger] m.contains_key(k) ==> json_leaf(m[k])
}

/// A flat value, or an object whose values are all flat.
pub open spec fn json_nested(v: JsonView) -> bool {
    ||| json_flat(v)
    ||| v matches JsonView::Object(m) && forall|k: Seq<char>| #[trigger] m.contains_key(k) ==> json_flat(m[k])
}

/// A value with no floating-point number, no array but of strings, and at most
/// three levels of objects, one inside the other.
pub open spec fn json_shallow(v: JsonView) -> bool {
    ||| json_nested(v)
    ||| v matches JsonView::Object(m) && forall|k: Seq<char>| #[trigger] m.contains_key(k) ==> json_nested(m[k])
}

/// The views of a list of values.
pub open spec fn json_views(vs: Seq<serde_json::Value>) -> Seq<JsonView> {
    vs.map_values(|v: serde_json::Value| json_view(v))
}

/// Reads `key` of an object; `None` for a missing key or a value that is no object.
pub open spec fn json_get(v: JsonView, key: Seq<char>) -> Option<JsonView> {
    match v {
        JsonView::Object(m) => if m.contains_key(key) {
            Some(m[key])
        } else {
            None
        },
        _ => None,
    }
}

/// `serde_json::Value::get` with a string key: the value under `key` of an
/// object, `None` for a missing key or a value that is no object.
#[verifier::external_body]
pub fn value_get<'a>(v: &'a serde_json::Value, key: &str) -> (r: Option<&'a serde_json::Value>)
    ensures
        match r {
            Some(x) => json_get(json_view(*v), key@) == Some(json_view(*x)),
            None => json_get(json_view(*v), key@) is None,
        },
{
    v.get(key)
}

/// `serde_json::Value::as_str`: the characters of a string value.
#[verifier::external_body]
pub fn value_as_str(v: &serde_json::Value) -> (r: Option<&str>)
    ensures
        match r {
            Some(s) => json_view(*v) == JsonView::Str(s@),
            None => !(json_view(*v) is Str),
        },
{
    v.as_str()
}

/// `serde_json::Value::as_array`: the elements of an array value.
#[verifier::external_body]
pub fn value_as_array(v: &serde_json::Value) -> (r: Option<&Vec<serde_json::Value>>)
    ensures
        match r {
            Some(a) => json_view(*v) == JsonView::Array(json_views(a@)),
            None => !(json_view(*v) is Array),
        },
{
    v.as_array()
}

/// `serde_json::Value::as_bool`: the value of a boolean.
#[verifier::external_body]
pub fn value_as_bool(v: &serde_json::Value) -> (r: Option<bool>)
    ensures
        match r {
            Some(b) => json_view(*v) == JsonView::Bool(b),
            None => !(json_view(*v) is Bool),
        },
{
    v.as_bool()
}

/// `serde_json::Value::is_boolean`: whether the value is a boolean.
#[verifier::external_body]
pub fn value_is_boolean(v: &serde_json::Value) -> (r: bool)
    ensures
        r == (json_view(*v) is Bool),
{
    v.is_boolean()
}

/// `serde_json::Value::is_null`: whether the value is `null`.
#[verifier::external_body]
pub fn value_is_null(v: &serde_json::Value) -> (r: bool)
    ensures
        r == (json_view(*v) is Null),
{
    v.is_null()
}

/// `serde_json::Value::is_object`: whether the value is an object.
#[verifier::external_body]
pub fn value_is_object(v: &serde_json::Value) -> (r: bool)
    ensures
        r == (json_view(*v) is Object),
{
    v.is_object()
}

/// `serde_json::Value::as_u64`: a non-negative integer (serde_json keeps every
/// non-negative integer it holds as a `u64`).
#[verifier::external_body]
pub fn value_as_u64(v: &serde_json::Value) -> (r: Option<u64>)
    ensures
        match r {
            Some(n) => json_view(*v) == JsonView::Int(n as int),
            None => !(json_view(*v) matches JsonView::Int(k) && k >= 0),
        },
{
    v.as_u64()
}

/// `Clone` of `serde_json::Value`: a deep copy.
#[verifier::external_body]
pub fn value_clone(v: &serde_json::Value) -> (r: serde_json::Value)
    ensures
        json_view(r) == json_view(*v),
{
    v.clone()
}

/// `serde_json::Value::String`.
#[verifier::external_body]
pub fn json_string(s: String) -> (r: serde_json::Value)
    ensures
        json_view(r) == JsonView::Str(s@),
{
    serde_json::Value::String(s)
}

/// `serde_json::Value::Bool`.
#[verifier::external_body]
pub fn json_bool(b: bool) -> (r: serde_json::Value)
    ensures
        json_view(r) == JsonView::Bool(b),
{
    serde_json::Value::Bool(b)
}

/// `serde_json::Value::Null`.
#[verifier::external_body]
pub fn json_null() -> (r: serde_json::Value)
    ensures
        json_view(r) == JsonView::Null,
{
    serde_json::Value::Null
}

/// `serde_json::Value::from(u64)`: an integer.
#[verifier::external_body]
pub fn json_u64(n: u64) -> (r: serde_json::Value)
    ensures
        json_view(r) == JsonView::Int(n as int),
{
    serde_json::Value::from(n)
}

/// `serde_json::Value::Array`.
#[verifier::external_body]
pub fn json_array(items: Vec<serde_json::Value>) -> (r: serde_json::Value)
    ensures
        json_view(r) == JsonView::Array(json_views(items@)),
{
    serde_json::Value::Array(items)
}

/// `serde_json::Value::Object`.
#[verifier::external_body]
pub fn json_object(m: serde_json::Map<String, serde_json::Value>) -> (r: serde_json::Value)
    ensures
        json_view(r) == JsonView::Object(json_map_view(m)),
{
    serde_json::Value::Object(m)
}

/// The map of a `serde_json::Value::Object`, taken out of the value; `None` for
/// a value of another variant.
#[verifier::external_body]
pub fn value_into_object(v: serde_json::Value) -> (r: Option<serde_json::Map<String, serde_json::Value>>)
    ensures
        match r {
            Some(m) => json_view(v) == JsonView::Object(json_map_view(m)),
            None => !(json_view(v) is Object),
        },
{
    match v {
        serde_json::Value::Object(m) => Some(m),
        _ => None,
    }
}

/// `serde_json::Map::new`: an empty object.
#[verifier::external_body]
pub fn json_map_new() -> (r: serde_json::Map<String, serde_json::Value>)
    ensures
        json_map_view(r).dom() == Set::<Seq<char>>::empty(),
{
    serde_json::Map::new()
}

/// `serde_json::Map::insert`: sets `key` to `value`, handing back the value it
/// replaced.
#[verifier::external_body]
pub fn json_map_insert(
    m: &mut serde_json::Map<String, serde_json::Value>,
    key: String,
    value: serde_json::Value,
) -> (r: Option<serde_json::Value>)
    ensures
        json_map_view(*final(m)) == json_map_view(*old(m)).insert(key@, json_view(value)),
        match r {
            Some(x) => json_map_view(*old(m)).contains_key(key@) && json_view(x) == json_map_view(
                *old(m),
            )[key@],
            None => !json_map_view(*old(m)).contains_key(key@),
        },
{
    m.insert(key, value)
}

/// `serde_json::from_str::<Value>`: the parsed value, or the text of the error.
#[verifier::external_body]
pub fn json_parse(text: &str) -> (r: Result<serde_json::Value, String>)
    ensures
        match r {
            Ok(v) => parsed_json(text@) == Ok::<JsonView, Seq<char>>(json_view(v)),
            Err(e) => parsed_json(text@) == Err::<JsonView, Seq<char>>(e@),
        },
{
    serde_json::from_str::<serde_json::Value>(text).map_err(|e| e.to_string())
}

/// `serde_json::to_string`: the compact text of a value.  Writing a `Value`
/// succeeds: serde_json fails only where a `Serialize` impl fails or a map has
/// non-string keys, `Value`'s impl fails on nothing of its own, its object keys
/// are strings, and the text goes into a `Vec`.  For a value with no floating-point number (whose text need not read back
/// exactly) and well within serde_json's nesting limit for reading,
/// `serde_json::from_str` reads the text back as the same value.
#[verifier::external_body]
pub fn json_to_string(v: &serde_json::Value) -> (r: Option<String>)
    ensures
        r is Some,
        r matches Some(t) ==> t@ == json_text(json_view(*v)),
        r matches Some(t) ==> (json_shallow(json_view(*v)) ==> parsed_json(t@) == Ok::<
            JsonView,
            Seq<char>,
        >(json_view(*v))),
{
    serde_json::to_string(v).ok()
}

/// `serde_json::to_string_pretty`: the indented text of a value.  Writing a
/// `Value` succeeds, as for `serde_json::to_string`.  For a value with no floating-point number (whose text need not
/// read back exactly) and well within serde_json's nesting limit for reading,
/// `serde_json::from_str` reads the text back as the same value.
#[verifier::external_body]
pub fn json_to_string_pretty(v: &serde_json::Value) -> (r: Option<String>)
    ensures
        r is Some,
        r matches Some(t) ==> t@ == json_pretty_text(json_view(*v)),
        r matches Some(t) ==> (json_shallow(json_view(*v)) ==> parsed_json(t@) == Ok::<
            JsonView,
            Seq<char>,
        >(json_view(*v))),
{
    serde_json::to_string_pretty(v).ok()
}

/// `ToString` through the `Display` impl of `serde_json::Value`.
#[verifier::external_body]
pub fn json_display(v: &serde_json::Value) -> (r: String)
    ensures
        r@ == json_display_text(json_view(*v)),
{
    v.to_string()
}

/// `String::from_utf8_lossy`: the bytes as text, invalid sequences replaced.
#[verifier::external_body]
pub fn utf8_lossy(bytes: &[u8]) -> (r: String)
    ensures
        r@ == lossy_utf8(bytes@),
{
    String::from_utf8_lossy(bytes).into_owned()
}

/// A JSON array of strings.
pub fn json_string_array(items: &[String]) -> (r: serde_json::Value)
    ensures
        json_view(r) == JsonView::Array(
            items@.map_values(|s: String| JsonView::Str(s@)),
        ),
{
    let mut out: Vec<serde_json::Value> = Vec::new();
    let mut i: usize = 0;
    while i < items.len()
        invariant
            i <= items@.len(),
            json_views(out@) =~= items@.take(i as int).map_values(|s: String| JsonView::Str(s@)),
        decreases items@.len() - i,
    {
        let ghost prev = out@;
        out.push(json_string(items[i].clone()));
        assert(json_views(out@) =~= json_views(prev).push(json_view(out@[i as int])));
        assert(items@.take(i + 1) =~= items@.take(i as int).push(items@[i as int]));
        i += 1;
    }
    assert(items@.take(items@.len() as int) =~= items@);
    json_array(out)
}

} // verus!
