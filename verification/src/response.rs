//! The JSON body with which the service refuses a request.

use vstd::prelude::*;

verus! {

/// The body of a refused request, sent with the HTTP status `code`: a
/// `status` word and a `message`.
#[derive(Debug, Clone)]
pub struct ErrorResponse {
    pub code: u16,
    pub status: String,
    pub message: String,
}

/// The status word of a refusal: `fail` for a fault of the client, `error`
/// for one of the server (a status of 500 or above).
pub open spec fn status_word(code: u16) -> Seq<char> {
    if code >= 500 {
        "error"@
    } else {
        "fail"@
    }
}

impl ErrorResponse {
    /// The refusal with status `code` and the given message.
    pub fn new(code: u16, message: &str) -> (r: ErrorResponse)
        ensures
            r.code == code,
            r.status@ == status_word(code),
            code < 500 ==> r.status@ == "fail"@,
            code >= 500 ==> r.status@ == "error"@,
            r.message@ == message@,
    {
        let status = if code >= 500 {
            String::from_str("error")
        } else {
            String::from_str("fail")
        };
        ErrorResponse { code, status, message: message.to_owned() }
    }
}

} // verus!
