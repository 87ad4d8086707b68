//! How an incoming Auth0 event is answered.

use vstd::prelude::*;

use crate::encode::EncodeError;
use crate::json::{is_json_array, json_array};
use crate::response::{status_word, ErrorResponse};

verus! {

/// The answer to an event.
#[derive(Debug, Clone)]
pub enum EventResponse {
    /// The event was encoded: 200 with the JSON string `"SUCCESS"`.
    Success,
    /// The event was not a JSON array: 500.
    NotArray,
    /// No encoder is configured: 500.
    NoEncoder,
    /// The encoder reported this error: 500.
    EncodeFailed(EncodeError),
}

/// The next step for an event.
#[derive(Debug, Clone)]
pub enum EventStep {
    /// Answer the event at once.
    Respond(EventResponse),
    /// Hand the event to the encoder, then answer with `finish_event`.
    Encode,
}

/// The Debug text of an encoder error, as `format!("{:?}", ..)` writes it.
pub uninterp spec fn encode_error_debug(e: EncodeError) -> Seq<char>;

/// Calls `format!("{:?}", e)` on an encoder error; the contract names the
/// text that the derived `Debug` writes.
#[verifier::external_body]
fn debug_text(e: &EncodeError) -> (r: String)
    ensures
        r@ == encode_error_debug(*e),
{
    format!("{:?}", e)
}

/// The message for data that is not an array.
pub open spec fn not_array_reply() -> Seq<char> {
    "JSON data is not an array. Make sure to configure Auth0 log stream content format to JSON Array"@
}

/// The message when no encoder is configured.
pub open spec fn no_encoder_reply() -> Seq<char> {
    "No encoder found in app_data"@
}

/// The HTTP status of a response.
pub open spec fn response_status(r: EventResponse) -> u16 {
    match r {
        EventResponse::Success => 200,
        _ => 500,
    }
}

/// The text a response carries.
pub open spec fn response_message(r: EventResponse) -> Seq<char> {
    match r {
        EventResponse::Success => "SUCCESS"@,
        EventResponse::NotArray => not_array_reply(),
        EventResponse::NoEncoder => no_encoder_reply(),
        EventResponse::EncodeFailed(e) => "Error decoding value: "@ + encode_error_debug(e),
    }
}

impl EventResponse {
    /// The HTTP status of the response.
    pub fn status(&self) -> (s: u16)
        ensures
            s == response_status(*self),
            s == 200 <==> *self is Success,
            !(*self is Success) ==> s == 500,
    {
        match self {
            EventResponse::Success => 200,
            _ => 500,
        }
    }

    /// The body of a refusal: none for success, otherwise status 500, status
    /// word `error` and the response's message.
    pub fn error_body(&self) -> (b: Option<ErrorResponse>)
        ensures
            match *self {
                EventResponse::Success => b is None,
                _ => b matches Some(e) && e.code == 500 && e.status@ == status_word(500)
                    && e.message@ == response_message(*self),
            },
    {
        match self {
            EventResponse::Success => None,
            _ => {
                let m = self.message();
                Some(ErrorResponse::new(500, m.as_str()))
            },
        }
    }

    /// The text the response carries.
    pub fn message(&self) -> (m: String)
        ensures
            m@ == response_message(*self),
            match *self {
                EventResponse::Success => m@ == "SUCCESS"@,
                EventResponse::NotArray => m@
                    == "JSON data is not an array. Make sure to configure Auth0 log stream content format to JSON Array"@,
                EventResponse::NoEncoder => m@ == "No encoder found in app_data"@,
                EventResponse::EncodeFailed(e) => m@ == "Error decoding value: "@ + encode_error_debug(e),
            },
    {
        match self {
            EventResponse::Success => String::from_str("SUCCESS"),
            EventResponse::NotArray => String::from_str(
                "JSON data is not an array. Make sure to configure Auth0 log stream content format to JSON Array",
            ),
            EventResponse::NoEncoder => String::from_str("No encoder found in app_data"),
            EventResponse::EncodeFailed(e) => {
                let mut m = String::from_str("Error decoding value: ");
                let d = debug_text(e);
                m.append(d.as_str());
                m
            },
        }
    }
}

/// The first step for an event `item`, when an encoder is configured or not:
/// data that is not an array is refused, then a missing encoder, and
/// otherwise the event goes to the encoder.
pub fn start_event(item: &serde_json::Value, has_encoder: bool) -> (s: EventStep)
    ensures
        json_array(*item) is None ==> s matches EventStep::Respond(EventResponse::NotArray),
        json_array(*item) is Some && !has_encoder ==> s matches EventStep::Respond(
            EventResponse::NoEncoder,
        ),
        json_array(*item) is Some && has_encoder ==> s is Encode,
{
    if !is_json_array(item) {
        EventStep::Respond(EventResponse::NotArray)
    } else if !has_encoder {
        EventStep::Respond(EventResponse::NoEncoder)
    } else {
        EventStep::Encode
    }
}

/// The answer once the encoder has returned `result`.
pub fn finish_event(result: Result<(), EncodeError>) -> (r: EventResponse)
    ensures
        match result {
            Ok(()) => r is Success,
            Err(e) => r == EventResponse::EncodeFailed(e),
        },
{
    match result {
        Ok(()) => EventResponse::Success,
        Err(e) => EventResponse::EncodeFailed(e),
    }
}

} // verus!
