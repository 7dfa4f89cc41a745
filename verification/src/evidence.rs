use vstd::prelude::*;
use vstd::slice::slice_to_vec;

use crate::json::{
    insert_string_field, integer_numbers, json_field, json_is_object, json_model_bytes,
    json_slice_model, json_text_model, json_value_model, json_value_readable, parse_json_slice,
    parse_json_text, value_to_vec, JsonModel,
};

verus! {

/// The JSON object `fields` with the string field `pccs_url` set to `pccs_url`.
pub open spec fn with_pccs_url(fields: Map<Seq<char>, JsonModel>, pccs_url: Seq<char>) -> JsonModel {
    JsonModel::Object(fields.insert("pccs_url"@, JsonModel::String(pccs_url)))
}

/// Setting a string field adds no number: an object whose numbers are
/// integers keeps that with `pccs_url` set.
pub proof fn lemma_with_pccs_url_integer_numbers(fields: Map<Seq<char>, JsonModel>, pccs_url: Seq<char>)
    requires
        integer_numbers(JsonModel::Object(fields)),
    ensures
        integer_numbers(with_pccs_url(fields, pccs_url)),
{
    let updated = fields.insert("pccs_url"@, JsonModel::String(pccs_url));
    assert(JsonModel::Object(fields) matches JsonModel::Object(f) && f == fields);
    assert forall|key: Seq<char>| updated.dom().contains(key) implies integer_numbers(
        #[trigger] updated[key],
    ) by {
        if key != "pccs_url"@ {
            assert(fields.dom().contains(key));
            assert(updated[key] == fields[key]);
            assert(integer_numbers(fields[key]));
        } else {
            assert(updated[key] == JsonModel::String(pccs_url));
            assert(integer_numbers(JsonModel::String(pccs_url)));
        }
    }
    assert(integer_numbers(JsonModel::Object(updated)));
}

/// What attaching `pccs_url` to the JSON object read from `evidence` gives as
/// `out`: the bytes serde_json writes for that object with `pccs_url` set,
/// every other field as it was. When the object's numbers are integers, `out`
/// reads back as exactly that object.
pub open spec fn pccs_url_attached(evidence: Seq<u8>, pccs_url: Seq<char>, out: Seq<u8>) -> bool {
    let updated = with_pccs_url(json_slice_model(evidence)->Some_0->Object_0, pccs_url);
    &&& out == json_model_bytes(updated)
    &&& integer_numbers(json_slice_model(evidence)->Some_0) ==> json_slice_model(out) == Some(
        updated,
    )
}

/// Why the PCCS URL could not be attached to the evidence.
pub enum PccsUrlError {
    /// The evidence is not JSON text.
    InvalidJson(serde_json::Error),
    /// The evidence is JSON, but not an object.
    NotAnObject,
    /// The object could not be written back as JSON; writing a JSON value
    /// never fails, so this does not occur.
    Serialize(serde_json::Error),
}

/// Whether `value` is a JSON object.
pub fn is_json_object(value: &serde_json::Value) -> (object: bool)
    ensures
        object == (json_value_model(*value) is Object),
{
    json_is_object(value)
}

/// Sets the string field `pccs_url` of a JSON object to `pccs_url`; the
/// other fields stay as they were.
pub fn attach_pccs_url(evidence: &mut serde_json::Value, pccs_url: &str)
    requires
        json_value_model(*old(evidence)) is Object,
    ensures
        json_value_model(*final(evidence)) == with_pccs_url(
            json_value_model(*old(evidence))->Object_0,
            pccs_url@,
        ),
        json_value_model(*final(evidence))->Object_0["pccs_url"@] == JsonModel::String(pccs_url@),
        json_value_readable(*old(evidence)) ==> json_value_readable(*final(evidence)),
{
    let key = String::from_str("pccs_url");
    insert_string_field(evidence, key, String::from_str(pccs_url));
}

/// Attaches the PCCS URL, when there is one, to the evidence as its string
/// field `pccs_url`. Without a URL the evidence goes through unchanged; with
/// one, the evidence must be a JSON object, and the bytes that come back are
/// serde_json's text of that object with `pccs_url` set and every other field
/// as it was.
pub fn add_pccs_url_to_evidence(evidence_bytes: &[u8], pccs_url: Option<&str>) -> (with_url: Result<
    Vec<u8>,
    PccsUrlError,
>)
    ensures
        pccs_url is None ==> (with_url matches Ok(bytes) && bytes@ == evidence_bytes@),
        pccs_url matches Some(url) ==> {
            &&& (with_url matches Err(PccsUrlError::InvalidJson(_))) <==> json_slice_model(
                evidence_bytes@,
            ) is None
            &&& (with_url matches Err(PccsUrlError::NotAnObject)) <==> (json_slice_model(
                evidence_bytes@,
            ) matches Some(v) && !(v is Object))
            &&& with_url is Ok <==> (json_slice_model(evidence_bytes@) matches Some(
                JsonModel::Object(_),
            ))
            &&& (with_url matches Ok(bytes) ==> pccs_url_attached(evidence_bytes@, url@, bytes@))
        },
{
    match pccs_url {
        None => Ok(slice_to_vec(evidence_bytes)),
        Some(url) => match parse_json_slice(evidence_bytes) {
            Err(e) => Err(PccsUrlError::InvalidJson(e)),
            Ok(mut evidence) => {
                if !is_json_object(&evidence) {
                    return Err(PccsUrlError::NotAnObject);
                }
                let ghost fields = json_value_model(evidence)->Object_0;
                attach_pccs_url(&mut evidence, url);
                proof {
                    if integer_numbers(JsonModel::Object(fields)) {
                        lemma_with_pccs_url_integer_numbers(fields, url@);
                    }
                }
                match value_to_vec(&evidence) {
                    Ok(bytes) => Ok(bytes),
                    Err(e) => Err(PccsUrlError::Serialize(e)),
                }
            },
        },
    }
}

/// Whether the JSON value `value` is an object with an `error` field.
pub open spec fn has_error_field(value: JsonModel) -> bool {
    value matches JsonModel::Object(fields) && fields.dom().contains("error"@)
}

/// Why a component's answer is not a verified set of claims.
pub enum ComponentOutputError {
    /// The component answered with something other than JSON text.
    NotJson(serde_json::Error),
    /// The component reported a failure; this is its `error` field.
    VerificationFailed(serde_json::Value),
}

/// Reads a verifier component's answer: JSON text whose top-level `error`
/// field, when present, means that verification failed, and then is the
/// error. Otherwise the answer, exactly as read, is the claims.
pub fn check_component_output(output: &str) -> (claims: Result<serde_json::Value, ComponentOutputError>)
    ensures
        (claims matches Err(ComponentOutputError::NotJson(_))) <==> json_text_model(output@) is None,
        (claims matches Err(ComponentOutputError::VerificationFailed(_))) <==> (json_text_model(
            output@,
        ) matches Some(v) && has_error_field(v)),
        claims matches Err(ComponentOutputError::VerificationFailed(error)) ==> json_value_model(
            error,
        ) == json_text_model(output@)->Some_0->Object_0["error"@],
        claims is Ok <==> (json_text_model(output@) matches Some(v) && !has_error_field(v)),
        (json_text_model(output@) matches Some(JsonModel::Object(fields)) && fields.dom().contains(
            "error"@,
        )) ==> (claims matches Err(ComponentOutputError::VerificationFailed(error))
            && json_value_model(error) == json_text_model(output@)->Some_0->Object_0["error"@]),
        claims matches Ok(value) ==> json_text_model(output@) == Some(json_value_model(value)),
{
    match parse_json_text(output) {
        Err(e) => Err(ComponentOutputError::NotJson(e)),
        Ok(value) => match json_field(&value, "error") {
            Some(error) => Err(ComponentOutputError::VerificationFailed(error)),
            None => Ok(value),
        },
    }
}

} // verus!
