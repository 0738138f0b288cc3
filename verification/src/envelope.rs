//! The success/failure response envelope and its structural decoding.
//!
//! Every response of the service is wrapped in a two-variant envelope:
//! success carries a typed payload under `data`, failure carries a
//! human-readable `error_message`. The variants are told apart by which of
//! those members is present — the `success` boolean exists in both, is
//! decoded for fidelity, but never picks the variant.

use vstd::prelude::*;

use crate::error::Error;
use crate::json::FromJson;
use crate::json::JsonMember;
use crate::json::JsonValue;
use crate::json::bool_field;
use crate::json::lookup;
use crate::json::spec_bool_field;
use crate::json::spec_lookup;
use crate::json::spec_str_field;
use crate::json::str_field;
use crate::responses::CaptionImageResponse;
use crate::responses::MemeTemplate;
use crate::responses::MemeTemplatesData;

verus! {

/// A decoded response envelope, generic over the payload type.
#[derive(Debug)]
pub enum Response<T> {
    SuccessResponse { success: bool, data: T },
    FailureResponse { success: bool, error_message: String },
}

/// Mathematical content of a decoded envelope, over the payload's view.
pub ghost enum EnvelopeView<M> {
    Success { success: bool, data: M },
    Failure { success: bool, error_message: Seq<char> },
}

/// The envelope's decoding rule: the body must be an object with the
/// informational `success` boolean. The success shape — a `data` member
/// that decodes as the payload — is attempted first; otherwise the failure
/// shape — a string `error_message` member — is attempted; `None` means
/// neither shape matched (a malformed response). The `success` flag is
/// carried through but never used to pick the variant.
pub open spec fn spec_decode_envelope<T: FromJson>(v: JsonValue) -> Option<EnvelopeView<T::V>> {
    match v {
        JsonValue::Obj(fields) => match spec_bool_field(fields@, "success"@) {
            Some(flag) => {
                let data = match spec_lookup(fields@, "data"@) {
                    Some(d) => T::spec_from_json(d),
                    None => None,
                };
                match data {
                    Some(m) => Some(EnvelopeView::Success { success: flag, data: m }),
                    None => match spec_str_field(fields@, "error_message"@) {
                        Some(msg) => Some(
                            EnvelopeView::Failure { success: flag, error_message: msg },
                        ),
                        None => None,
                    },
                }
            },
            None => None,
        },
        _ => None,
    }
}

/// Decodes a response body into the envelope, or the decode error when the
/// body matches neither envelope shape.
pub fn decode_response<T: FromJson>(v: &JsonValue) -> (r: Result<Response<T>, Error>)
    ensures
        match spec_decode_envelope::<T>(*v) {
            Some(EnvelopeView::Success { success, data }) => (r matches Ok(
                Response::SuccessResponse { success: s2, data: d2 },
            ) && s2 == success && d2@ == data),
            Some(EnvelopeView::Failure { success, error_message }) => (r matches Ok(
                Response::FailureResponse { success: s2, error_message: m2 },
            ) && s2 == success && m2@ == error_message),
            None => (r matches Err(e) && e is Decode),
        },
{
    match v {
        JsonValue::Obj(fields) => match bool_field(fields, "success") {
            Some(flag) => {
                let data: Option<T> = match lookup(fields, "data") {
                    Some(d) => T::from_json(d),
                    None => None,
                };
                match data {
                    Some(d) => Ok(Response::SuccessResponse { success: flag, data: d }),
                    None => match str_field(fields, "error_message") {
                        Some(msg) => Ok(
                            Response::FailureResponse {
                                success: flag,
                                error_message: msg.clone(),
                            },
                        ),
                        None => Err(Error::Decode),
                    },
                }
            },
            None => Err(Error::Decode),
        },
        _ => Err(Error::Decode),
    }
}

impl<T> Response<T> {
    /// Unwraps the envelope: the payload on success, the API error with
    /// the server's message verbatim on failure.
    pub fn convert(self) -> (r: Result<T, Error>)
        ensures
            match self {
                Response::SuccessResponse { data, .. } => r matches Ok(d) && d == data,
                Response::FailureResponse { error_message, .. } => (r matches Err(e)
                    && e matches Error::ApiError(m) && m@ == error_message@),
            },
    {
        match self {
            Response::SuccessResponse { data, success: _ } => Ok(data),
            Response::FailureResponse { error_message, success: _ } => Err(
                Error::ApiError(error_message),
            ),
        }
    }
}

/// Unwraps an envelope exactly as [`Response::convert`] does.
pub fn err_for_failure<T>(response: Response<T>) -> (r: Result<T, Error>)
    ensures
        match response {
            Response::SuccessResponse { data, .. } => r matches Ok(d) && d == data,
            Response::FailureResponse { error_message, .. } => (r matches Err(e)
                && e matches Error::ApiError(m) && m@ == error_message@),
        },
{
    response.convert()
}

/// Decodes the body of the template-list endpoint: an envelope around
/// `{memes: [...]}`. Returns the catalog in its order, the API error, or
/// the decode error.
pub fn decode_memes_response(v: &JsonValue) -> (r: Result<Vec<MemeTemplate>, Error>)
    ensures
        match spec_decode_envelope::<MemeTemplatesData>(*v) {
            Some(EnvelopeView::Success { data, .. }) => (r matches Ok(ts) && ts@.len()
                == data.len() && (forall|j: int|
                0 <= j < data.len() ==> #[trigger] ts@[j]@ == data[j])),
            Some(EnvelopeView::Failure { error_message, .. }) => (r matches Err(e)
                && e matches Error::ApiError(m) && m@ == error_message),
            None => (r matches Err(e) && e is Decode),
        },
{
    match decode_response::<MemeTemplatesData>(v) {
        Ok(resp) => match resp.convert() {
            Ok(d) => Ok(d.memes),
            Err(e) => Err(e),
        },
        Err(e) => Err(e),
    }
}

/// Decodes the body of the caption endpoint: an envelope around a
/// captioned-image object.
pub fn decode_caption_response(v: &JsonValue) -> (r: Result<CaptionImageResponse, Error>)
    ensures
        match spec_decode_envelope::<CaptionImageResponse>(*v) {
            Some(EnvelopeView::Success { data, .. }) => (r matches Ok(c) && c@ == data),
            Some(EnvelopeView::Failure { error_message, .. }) => (r matches Err(e)
                && e matches Error::ApiError(m) && m@ == error_message),
            None => (r matches Err(e) && e is Decode),
        },
{
    match decode_response::<CaptionImageResponse>(v) {
        Ok(resp) => resp.convert(),
        Err(e) => Err(e),
    }
}

/// Law: a body of the success shape — `success` boolean present, `data`
/// present and decodable as the payload — decodes to the success variant
/// whose payload is exactly what the payload rule yields, field for field;
/// never the failure variant, never an error, whatever the flag's value.
pub proof fn lemma_success_envelope_yields_payload<T: FromJson>(
    fields: Vec<JsonMember>,
    flag: bool,
    d: JsonValue,
    m: T::V,
)
    requires
        spec_bool_field(fields@, "success"@) == Some(flag),
        spec_lookup(fields@, "data"@) == Some(d),
        T::spec_from_json(d) == Some(m),
    ensures
        spec_decode_envelope::<T>(JsonValue::Obj(fields)) == Some(
            EnvelopeView::<T::V>::Success { success: flag, data: m },
        ),
{
}

/// Law: a body with the `success` boolean and a string `error_message`,
/// and no `data` member that decodes as the payload, decodes to the
/// failure variant carrying the server's message verbatim — whatever the
/// flag's value, which is carried but never picks the variant.
pub proof fn lemma_failure_envelope_yields_message<T: FromJson>(
    fields: Vec<JsonMember>,
    flag: bool,
    msg: Seq<char>,
)
    requires
        spec_bool_field(fields@, "success"@) == Some(flag),
        match spec_lookup(fields@, "data"@) {
            Some(d) => T::spec_from_json(d) is None,
            None => true,
        },
        spec_str_field(fields@, "error_message"@) == Some(msg),
    ensures
        spec_decode_envelope::<T>(JsonValue::Obj(fields)) == Some(
            EnvelopeView::<T::V>::Failure { success: flag, error_message: msg },
        ),
{
}

/// Law: a body with neither a `data` member nor an `error_message` member
/// matches neither envelope shape, so decoding yields nothing — the decode
/// error — and never a default value.
pub proof fn lemma_envelope_missing_both_is_decode_error<T: FromJson>(v: JsonValue)
    requires
        match v {
            JsonValue::Obj(fields) => spec_lookup(fields@, "data"@) is None && spec_lookup(
                fields@,
                "error_message"@,
            ) is None,
            _ => true,
        },
    ensures
        spec_decode_envelope::<T>(v) is None,
{
}

} // verus!
