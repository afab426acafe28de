//! JSON through `serde_json`: the text of a frame read into the elements the envelope logic
//! decides on, the elements of an outgoing frame written out as text, and the few JSON values the
//! library makes itself (the `errorDetails` of a CALLERROR: the empty object, and a one-entry
//! object of text). Payloads and details are `serde_json::Value`, carried through opaquely.

use vstd::prelude::*;
use crate::envelope::{Element, JsonShape, Outgoing, ParsedFrame};

verus! {

/// `serde_json::Value`, carried through opaquely.
#[verifier::external_type_specification]
#[verifier::external_body]
pub struct ExJsonValue(serde_json::Value);

/// `Clone` of `serde_json::Value` (a deep copy). Nothing is stated of the copy: `Value` is
/// opaque to the library.
pub assume_specification[ <serde_json::Value as Clone>::clone ](v: &serde_json::Value) -> serde_json::Value;

/// The JSON object (`Value::Object`) whose entries map each key to the JSON string of its text,
/// inserted in order into a fresh `serde_json::Map`.
pub uninterp spec fn json_object_of_texts(entries: Seq<(Seq<char>, Seq<char>)>) -> serde_json::Value;

/// The empty JSON object, `{}`.
pub open spec fn json_empty_object() -> serde_json::Value {
    json_object_of_texts(Seq::empty())
}

/// Builds the empty JSON object (`Value::Object` of `serde_json::Map::new`). The result is named
/// by `json_object_of_texts` with no entries.
#[verifier::external_body]
pub(crate) fn empty_object() -> (v: serde_json::Value)
    ensures
        v == json_empty_object(),
{
    serde_json::Value::Object(serde_json::Map::new())
}

/// Builds the JSON object with the single entry `key: text` (`serde_json::Map::new`, then
/// `Map::insert` of a `Value::String`, then `Value::Object`). The result is named by
/// `json_object_of_texts` with that one entry.
#[verifier::external_body]
pub(crate) fn object_with_text(key: &str, text: String) -> (v: serde_json::Value)
    ensures
        v == json_object_of_texts(seq![(key@, text@)]),
{
    let mut map = serde_json::Map::new();
    map.insert(key.to_string(), serde_json::Value::String(text));
    serde_json::Value::Object(map)
}

/// The JSON value `text` parses to, if it is JSON.
pub uninterp spec fn json_parse(text: Seq<char>) -> Option<serde_json::Value>;

/// `serde_json::from_str::<Value>`: the JSON value the text holds, or `None` where it is not
/// JSON. The result is named by `json_parse`: the same text gives the same value.
#[verifier::external_body]
fn parse_json(text: &str) -> (v: Option<serde_json::Value>)
    ensures
        v == json_parse(text@),
{
    serde_json::from_str::<serde_json::Value>(text).ok()
}

/// The elements of `v`, in order, when it is a JSON array.
pub uninterp spec fn json_array_elements(v: serde_json::Value) -> Option<Seq<serde_json::Value>>;

/// The elements of a JSON array (`Value::Array`), or `None` for any other value. The result is
/// named by `json_array_elements`.
#[verifier::external_body]
fn json_array_items(v: serde_json::Value) -> (r: Option<Vec<serde_json::Value>>)
    ensures
        match r {
            Some(items) => json_array_elements(v) == Some(items@),
            None => json_array_elements(v) is None,
        },
{
    match v {
        serde_json::Value::Array(items) => Some(items),
        serde_json::Value::Null => None,
        serde_json::Value::Bool(_) => None,
        serde_json::Value::Number(_) => None,
        serde_json::Value::String(_) => None,
        serde_json::Value::Object(_) => None,
    }
}

/// The number `v` holds, when it is a number that fits in `u64`.
pub uninterp spec fn json_unsigned_value(v: serde_json::Value) -> Option<u64>;

/// `Value::as_u64`: the number a value holds, where it is a number that fits in `u64`. The
/// result is named by `json_unsigned_value`.
#[verifier::external_body]
fn json_as_u64(v: &serde_json::Value) -> (r: Option<u64>)
    ensures
        r == json_unsigned_value(*v),
{
    v.as_u64()
}

/// Which variant of `Value` `v` is, a string with its text, any number as `OtherNumber`.
pub uninterp spec fn json_variant_shape(v: serde_json::Value) -> JsonShape;

/// Which variant of `Value` a value is, a string with its text; every number reads as
/// `OtherNumber` here (`json_as_u64` tells the unsigned ones). The result is named by
/// `json_variant_shape`.
#[verifier::external_body]
fn json_variant(v: &serde_json::Value) -> (shape: JsonShape)
    ensures
        shape == json_variant_shape(*v),
{
    match v {
        serde_json::Value::Null => JsonShape::Null,
        serde_json::Value::Bool(_) => JsonShape::Bool,
        serde_json::Value::Number(_) => JsonShape::OtherNumber,
        serde_json::Value::String(text) => JsonShape::Text(text.clone()),
        serde_json::Value::Array(_) => JsonShape::Array,
        serde_json::Value::Object(_) => JsonShape::Object,
    }
}

/// How an element of a received array reads to the envelope logic: an unsigned integer where
/// it is one, otherwise its variant.
pub open spec fn spec_element_shape(v: serde_json::Value) -> JsonShape {
    match json_unsigned_value(v) {
        Some(u) => JsonShape::Unsigned(u),
        None => json_variant_shape(v),
    }
}

fn element_shape(v: &serde_json::Value) -> (shape: JsonShape)
    ensures
        shape == spec_element_shape(*v),
{
    match json_as_u64(v) {
        Some(u) => JsonShape::Unsigned(u),
        None => json_variant(v),
    }
}

/// What the text of a received frame is: not JSON, JSON that is not an array, or the array's
/// elements in order, each with its shape.
pub open spec fn spec_parse_frame(text: Seq<char>, r: ParsedFrame<serde_json::Value>) -> bool {
    match json_parse(text) {
        None => r is NotJson,
        Some(v) => match json_array_elements(v) {
            None => r is NotArray,
            Some(items) => r matches ParsedFrame::Array(elements) && elements@.len() == items.len()
                && forall|i: int|
                0 <= i < items.len() ==> #[trigger] elements@[i].value == items[i]
                    && elements@[i].shape == spec_element_shape(items[i]),
        },
    }
}

/// Reads the text of a received frame into what the envelope logic decides on.
pub fn parse_frame(text: &str) -> (r: ParsedFrame<serde_json::Value>)
    ensures
        spec_parse_frame(text@, r),
{
    let value = match parse_json(text) {
        None => return ParsedFrame::NotJson,
        Some(value) => value,
    };
    let mut items = match json_array_items(value) {
        None => return ParsedFrame::NotArray,
        Some(items) => items,
    };
    let ghost all = items@;
    let mut elements: Vec<Element<serde_json::Value>> = Vec::new();
    while items.len() > 0
        invariant
            elements@.len() + items@.len() == all.len(),
            items@ == all.subrange(elements@.len() as int, all.len() as int),
            forall|i: int|
                0 <= i < elements@.len() ==> #[trigger] elements@[i].value == all[i]
                    && elements@[i].shape == spec_element_shape(all[i]),
        decreases items.len(),
    {
        let value = items.remove(0);
        let shape = element_shape(&value);
        elements.push(Element { shape, value });
    }
    ParsedFrame::Array(elements)
}

/// The JSON number `n`.
pub uninterp spec fn json_number(n: u64) -> serde_json::Value;

/// `Value::from(u64)`: the JSON number. The result is named by `json_number`.
#[verifier::external_body]
fn json_unsigned(u: u64) -> (v: serde_json::Value)
    ensures
        v == json_number(u),
{
    serde_json::Value::from(u)
}

/// The JSON string `text`.
pub uninterp spec fn json_string_value(text: Seq<char>) -> serde_json::Value;

/// `Value::String`: the JSON string. The result is named by `json_string_value`.
#[verifier::external_body]
fn json_string(text: String) -> (v: serde_json::Value)
    ensures
        v == json_string_value(text@),
{
    serde_json::Value::String(text)
}

/// The JSON array of `items`, in order.
pub uninterp spec fn json_array_value(items: Seq<serde_json::Value>) -> serde_json::Value;

/// `Value::Array`: the JSON array of these elements. The result is named by `json_array_value`.
#[verifier::external_body]
fn json_array(items: Vec<serde_json::Value>) -> (v: serde_json::Value)
    ensures
        v == json_array_value(items@),
{
    serde_json::Value::Array(items)
}

/// The compact JSON text of `v`.
pub uninterp spec fn json_render(v: serde_json::Value) -> Seq<char>;

/// `Value`'s `Display` (through `ToString::to_string`): compact JSON text; writing a `Value`
/// cannot fail. The result is named by `json_render`.
#[verifier::external_body]
fn json_text(v: &serde_json::Value) -> (s: String)
    ensures
        s@ == json_render(*v),
{
    v.to_string()
}

/// The JSON value an element of an outgoing frame is written as.
pub open spec fn spec_outgoing_value(o: Outgoing<serde_json::Value>) -> serde_json::Value {
    match o {
        Outgoing::Unsigned(u) => json_number(u),
        Outgoing::Text(text) => json_string_value(text@),
        Outgoing::Value(v) => v,
    }
}

/// Writes an outgoing frame (see `envelope::encode_frame`) as JSON text: the array of its
/// elements, in order, integers as numbers, strings as strings, payloads as they are.
pub fn render_frame(frame: Vec<Outgoing<serde_json::Value>>) -> (s: String)
    ensures
        s@ == json_render(json_array_value(frame@.map_values(|o| spec_outgoing_value(o)))),
{
    let ghost all = frame@;
    let mut frame = frame;
    let mut items: Vec<serde_json::Value> = Vec::new();
    while frame.len() > 0
        invariant
            items@.len() + frame@.len() == all.len(),
            frame@ == all.subrange(items@.len() as int, all.len() as int),
            forall|i: int|
                0 <= i < items@.len() ==> #[trigger] items@[i] == spec_outgoing_value(all[i]),
        decreases frame.len(),
    {
        let item = match frame.remove(0) {
            Outgoing::Unsigned(u) => json_unsigned(u),
            Outgoing::Text(text) => json_string(text),
            Outgoing::Value(value) => value,
        };
        items.push(item);
    }
    assert(items@ =~= all.map_values(|o| spec_outgoing_value(o)));
    json_text(&json_array(items))
}

} // verus!
