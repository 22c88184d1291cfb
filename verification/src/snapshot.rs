//! The parsed shape of one provider response, and its decoder.
//!
//! The provider answers a GET with a document of three fields: `timestamp`
//! (integer seconds since epoch, the provider's own capture time), `base`
//! (a currency code), and `rates` (an object mapping currency codes to
//! numeric rates). The decoder checks exactly that shape, member values of
//! `rates` included; a body of any other shape is a [`DecodeIssue`], never a
//! snapshot. The `rates` object itself is carried whole: no rate is read or
//! rewritten, so the pairs reach the store exactly as the provider sent
//! them.

use vstd::prelude::*;

use crate::errors::{DecodeIssue, FetchError};
use crate::json::{
    field_probe_of, parse_object_document, parsed_document_of, probe_field, FieldProbe,
};

verus! {

/// One decoded snapshot of exchange rates.
pub struct Rate {
    /// The provider's reported capture time, seconds since epoch.
    pub timestamp: i64,
    /// The base currency the rates are quoted against.
    pub base: String,
    /// The rate pairs, kept as the document the provider sent.
    pub pairs: serde_json::Value,
}

/// What the decoder makes of the three probed fields: the snapshot when
/// `timestamp` is an integer, `base` a string, and `rates` an object all of
/// whose member values are numbers; else the first issue in field order
/// `timestamp`, `base`, `rates`.
pub open spec fn spec_interpret(
    ts: FieldProbe,
    base: FieldProbe,
    rates: FieldProbe,
) -> Result<Rate, FetchError> {
    if !(ts is IntField) {
        Err(FetchError::DecodeFailure { issue: DecodeIssue::BadTimestamp })
    } else if !(base is TextField) {
        Err(FetchError::DecodeFailure { issue: DecodeIssue::BadBase })
    } else if !(rates is ObjectField) || !rates->numeric_members {
        Err(FetchError::DecodeFailure { issue: DecodeIssue::BadRates })
    } else {
        Ok(Rate { timestamp: ts->value, base: base->text, pairs: rates->object })
    }
}

/// What a body text decodes to: the interpretation of the three probed
/// fields of the document it parses to, or `BadBody` where it parses to no
/// object at all.
pub open spec fn spec_decode(body: Seq<char>) -> Result<Rate, FetchError> {
    match parsed_document_of(body) {
        None => Err(FetchError::DecodeFailure { issue: DecodeIssue::BadBody }),
        Some(doc) => spec_interpret(
            field_probe_of(doc, "timestamp"@),
            field_probe_of(doc, "base"@),
            field_probe_of(doc, "rates"@),
        ),
    }
}

/// Turns the three probed fields into a snapshot, or into the decode issue
/// that [`spec_interpret`] assigns to them.
pub fn interpret_fields(ts: FieldProbe, base: FieldProbe, rates: FieldProbe) -> (r: Result<
    Rate,
    FetchError,
>)
    ensures
        r == spec_interpret(ts, base, rates),
{
    match (ts, base, rates) {
        (
            FieldProbe::IntField { value },
            FieldProbe::TextField { text },
            FieldProbe::ObjectField { object, numeric_members },
        ) => {
            if numeric_members {
                Ok(Rate { timestamp: value, base: text, pairs: object })
            } else {
                Err(FetchError::DecodeFailure { issue: DecodeIssue::BadRates })
            }
        },
        (ts, base, rates) => {
            if !(matches!(ts, FieldProbe::IntField { .. })) {
                Err(FetchError::DecodeFailure { issue: DecodeIssue::BadTimestamp })
            } else if !(matches!(base, FieldProbe::TextField { .. })) {
                Err(FetchError::DecodeFailure { issue: DecodeIssue::BadBase })
            } else {
                Err(FetchError::DecodeFailure { issue: DecodeIssue::BadRates })
            }
        },
    }
}

/// A response without a well-shaped `rates` field — missing, not an object,
/// or an object with a non-numeric member value — never decodes: whatever
/// the other fields hold, the result is a `DecodeFailure`, and `BadRates`
/// exactly when `timestamp` and `base` themselves are well-shaped.
pub proof fn lemma_missing_rates_rejected(ts: FieldProbe, base: FieldProbe, rates: FieldProbe)
    requires
        !(rates is ObjectField) || !rates->numeric_members,
    ensures
        spec_interpret(ts, base, rates) matches Err(e) && e is DecodeFailure,
        ts is IntField && base is TextField ==> spec_interpret(ts, base, rates) == Err::<
            Rate,
            FetchError,
        >(FetchError::DecodeFailure { issue: DecodeIssue::BadRates }),
{
}

/// Decodes a response body into a snapshot, exactly as [`spec_decode`] says
/// of the body text: `BadBody` where the body is not a JSON object, else
/// the interpretation of its three fields, with the resulting snapshot
/// mirroring the body. Decoding reports shape issues only, never transport
/// trouble.
pub fn decode_body(body: &str) -> (r: Result<Rate, FetchError>)
    ensures
        r == spec_decode(body@),
        r matches Err(e) ==> e is DecodeFailure,
{
    match parse_object_document(body) {
        None => Err(FetchError::DecodeFailure { issue: DecodeIssue::BadBody }),
        Some(doc) => {
            let ts = probe_field(&doc, "timestamp");
            let base = probe_field(&doc, "base");
            let rates = probe_field(&doc, "rates");
            interpret_fields(ts, base, rates)
        },
    }
}

} // verus!
