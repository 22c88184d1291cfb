//! Trusted boundary to the document library.
//!
//! The provider's response body is a JSON document. Parsing it and walking
//! its tree are serde_json's work; this module declares the document type and
//! wraps the two calls the decoder makes. Everything a decision is made on is
//! first brought over into [`FieldProbe`], a plain shape of one field that
//! the verified decoder then examines. Both calls compute from their
//! arguments alone, so their results carry names — [`parsed_document_of`]
//! and [`field_probe_of`] — that the decoder's own contract is stated over.

use vstd::prelude::*;

verus! {

/// Declares serde_json's document type so that it can stand in signatures
/// and fields. Values of it are opaque here: they are parsed, carried
/// through, and handed back to the store untouched.
#[verifier::external_type_specification]
#[verifier::external_body]
pub struct ExValue(serde_json::Value);

/// What one field of a document holds, reduced to what the decoder reads:
/// an integer, a string, an object kept whole, or something else.
pub enum FieldProbe {
    /// The document has no such field.
    Missing,
    /// The field is an integer that fits the provider's timestamp range.
    IntField { value: i64 },
    /// The field is a string.
    TextField { text: String },
    /// The field is an object, kept as the document library holds it,
    /// together with the one fact the decoder asks of its inside: whether
    /// every member value is a number.
    ObjectField { object: serde_json::Value, numeric_members: bool },
    /// The field is there but of some other shape.
    OtherField,
}

/// The document a body text parses to, when it is well-formed JSON whose top
/// level is an object; parsing is a function of the text alone.
pub uninterp spec fn parsed_document_of(body: Seq<char>) -> Option<serde_json::Value>;

/// The probe of one field of a document; looking a key up and classifying
/// what it holds is a function of the document and the key alone.
pub uninterp spec fn field_probe_of(doc: serde_json::Value, key: Seq<char>) -> FieldProbe;

/// Relies on serde_json::from_str: parses a JSON document from text.
/// Returns the document only when the text is well-formed JSON whose top
/// level is an object; anything else is `None`.
#[verifier::external_body]
pub(crate) fn parse_object_document(body: &str) -> (r: Option<serde_json::Value>)
    ensures
        r == parsed_document_of(body@),
{
    match serde_json::from_str::<serde_json::Value>(body) {
        Ok(v @ serde_json::Value::Object(_)) => Some(v),
        Ok(_) => None,
        Err(_) => None,
    }
}

/// Relies on serde_json::Value::get: looks the key up in the document and
/// hands the field back as a plain [`FieldProbe`], one arm per shape of
/// value. Integers go through serde_json::Number::as_i64; an object is kept
/// whole (serde_json::Value::clone) together with whether every one of its
/// member values is a number (serde_json::Value::is_number).
#[verifier::external_body]
pub(crate) fn probe_field(doc: &serde_json::Value, key: &str) -> (r: FieldProbe)
    ensures
        r == field_probe_of(*doc, key@),
{
    match doc.get(key) {
        None => FieldProbe::Missing,
        Some(serde_json::Value::Number(n)) => match n.as_i64() {
            Some(value) => FieldProbe::IntField { value },
            None => FieldProbe::OtherField,
        },
        Some(serde_json::Value::String(s)) => FieldProbe::TextField { text: s.clone() },
        Some(serde_json::Value::Object(map)) => FieldProbe::ObjectField {
            object: serde_json::Value::Object(map.clone()),
            numeric_members: map.values().all(serde_json::Value::is_number),
        },
        Some(_) => FieldProbe::OtherField,
    }
}

} // verus!
