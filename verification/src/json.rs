use vstd::prelude::*;

verus! {

#[verifier::external_type_specification]
#[verifier::external_body]
pub struct ExJsonValue(serde_json::Value);

#[verifier::external_type_specification]
#[verifier::external_body]
pub struct ExJsonError(serde_json::Error);

/// A JSON value as plain data. A number is kept as the JSON text that
/// serde_json writes for it.
pub enum JsonModel {
    Null,
    Bool(bool),
    Number(Seq<char>),
    String(Seq<char>),
    Array(Seq<JsonModel>),
    Object(Map<Seq<char>, JsonModel>),
}

/// What `serde_json::from_slice::<serde_json::Value>` makes of `bytes`: `None`
/// when they are not read as JSON, and otherwise the value read.
pub uninterp spec fn json_slice_model(bytes: Seq<u8>) -> Option<JsonModel>;

/// What `serde_json::from_str::<serde_json::Value>` makes of `text`: `None`
/// when it is not read as JSON, and otherwise the value read.
pub uninterp spec fn json_text_model(text: Seq<char>) -> Option<JsonModel>;

/// What a `serde_json::Value` holds, as plain data.
pub uninterp spec fn json_value_model(value: serde_json::Value) -> JsonModel;

/// Whether the nesting of `value` lies within the recursion limit of
/// serde_json's reader, so that its JSON text can be read back.
pub uninterp spec fn json_value_readable(value: serde_json::Value) -> bool;

/// The bytes that `serde_json::to_vec` writes for a value that holds `value`
/// (serde_json's default map keeps object fields in key order, so the fields'
/// insertion order plays no part).
pub uninterp spec fn json_model_bytes(value: JsonModel) -> Seq<u8>;

/// Whether `text` is the JSON text of an integer: serde_json writes every
/// other number with a `.` or an exponent.
pub open spec fn integer_number_text(text: Seq<char>) -> bool {
    forall|i: int| 0 <= i < text.len() ==> text[i] != '.' && text[i] != 'e' && text[i] != 'E'
}

/// Whether every number in `value`, however deeply nested, is an integer.
pub open spec fn integer_numbers(value: JsonModel) -> bool
    decreases value,
{
    match value {
        JsonModel::Number(text) => integer_number_text(text),
        JsonModel::Array(items) => forall|i: int|
            0 <= i < items.len() ==> integer_numbers(#[trigger] items[i]),
        JsonModel::Object(fields) => forall|key: Seq<char>|
            fields.dom().contains(key) ==> integer_numbers(#[trigger] fields[key]),
        _ => true,
    }
}

/// `serde_json::from_slice::<serde_json::Value>`: the outcome is a function of
/// the bytes alone, named `json_slice_model`; a value read lies within the
/// reader's recursion limit.
#[verifier::external_body]
pub(crate) fn parse_json_slice(bytes: &[u8]) -> (parsed: Result<serde_json::Value, serde_json::Error>)
    ensures
        parsed is Err <==> json_slice_model(bytes@) is None,
        parsed matches Ok(value) ==> json_slice_model(bytes@) == Some(json_value_model(value)),
        parsed matches Ok(value) ==> json_value_readable(value),
{
    serde_json::from_slice::<serde_json::Value>(bytes)
}

/// `serde_json::from_str::<serde_json::Value>`: the outcome is a function of
/// the text alone, named `json_text_model`.
#[verifier::external_body]
pub(crate) fn parse_json_text(text: &str) -> (parsed: Result<serde_json::Value, serde_json::Error>)
    ensures
        parsed is Err <==> json_text_model(text@) is None,
        parsed matches Ok(value) ==> json_text_model(text@) == Some(json_value_model(value)),
{
    serde_json::from_str::<serde_json::Value>(text)
}

/// `serde_json::Value::is_object`.
#[verifier::external_body]
pub(crate) fn json_is_object(value: &serde_json::Value) -> (object: bool)
    ensures
        object == (json_value_model(*value) is Object),
{
    value.is_object()
}

/// `serde_json::Map::insert` of a JSON string into an object value: the key
/// now holds that string, whether or not it was there before, and the other
/// fields stay. A string adds no nesting.
#[verifier::external_body]
pub(crate) fn insert_string_field(value: &mut serde_json::Value, key: String, text: String)
    requires
        json_value_model(*old(value)) is Object,
    ensures
        json_value_model(*final(value)) == JsonModel::Object(
            json_value_model(*old(value))->Object_0.insert(key@, JsonModel::String(text@)),
        ),
        json_value_readable(*old(value)) ==> json_value_readable(*final(value)),
{
    if let serde_json::Value::Object(fields) = value {
        fields.insert(key, serde_json::Value::String(text));
    }
}

/// `serde_json::to_vec` of a value. Writing a `Value` to a vector cannot fail:
/// its object keys are strings and a vector accepts every write. What is
/// written depends on what the value holds alone (object fields come out in
/// key order). Reading the text back gives the same value when the value's
/// nesting lies within the reader's recursion limit and its numbers are
/// integers; a float can come back one step off, as the reader's default
/// float parsing is not exact, so nothing is stated of it.
#[verifier::external_body]
pub(crate) fn value_to_vec(value: &serde_json::Value) -> (bytes: Result<Vec<u8>, serde_json::Error>)
    ensures
        bytes is Ok,
        bytes matches Ok(b) ==> b@ == json_model_bytes(json_value_model(*value)),
        bytes matches Ok(b) ==> (json_value_readable(*value) && integer_numbers(
            json_value_model(*value),
        ) ==> json_slice_model(b@) == Some(json_value_model(*value))),
{
    serde_json::to_vec(value)
}

/// `serde_json::Value::get` with a key, cloning what it finds: the field of
/// an object with that key, and nothing for a missing key or a value that is
/// not an object.
#[verifier::external_body]
pub(crate) fn json_field(value: &serde_json::Value, key: &str) -> (field: Option<serde_json::Value>)
    ensures
        field is Some <==> (json_value_model(*value) matches JsonModel::Object(fields)
            && fields.dom().contains(key@)),
        field matches Some(f) ==> json_value_model(f) == json_value_model(*value)->Object_0[key@],
{
    value.get(key).cloned()
}

} // verus!
