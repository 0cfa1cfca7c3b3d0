//! Checks on a server response and the classification of its body.

use vstd::prelude::*;
use vstd::string::*;
use crate::error::UploadError;
use crate::models::{ApiResponse, ImportResult};
use crate::text::{decimal, join, decimal_string};

verus! {

/// How the server treated a chart that reached it.
#[derive(PartialEq, Eq, Structural, Clone, Copy, Debug)]
pub enum UploadOutcome {
    /// Accepted and newly stored.
    Imported,
    /// Already present on the server.
    Skipped,
    /// Processed but declined.
    Rejected,
}

/// The outcome named by a body's `status` field.
pub open spec fn outcome_of(status: Seq<char>) -> UploadOutcome {
    if status == "imported"@ {
        UploadOutcome::Imported
    } else if status == "skipped"@ {
        UploadOutcome::Skipped
    } else {
        UploadOutcome::Rejected
    }
}

/// Maps a decoded body to its outcome by its `status` field.
pub fn classify(result: &ImportResult) -> (r: UploadOutcome)
    ensures
        r == outcome_of(result.status@),
{
    let imported = String::from_str("imported");
    let skipped = String::from_str("skipped");
    if result.status == imported {
        UploadOutcome::Imported
    } else if result.status == skipped {
        UploadOutcome::Skipped
    } else {
        UploadOutcome::Rejected
    }
}

/// Envelope status codes 20 to 29 mean success.
pub open spec fn is_success_code_spec(code: u64) -> bool {
    code / 10 == 2
}

/// Whether an envelope status code means success.
pub fn is_success_code(code: u64) -> (r: bool)
    ensures
        r == is_success_code_spec(code),
{
    code / 10 == 2
}

/// HTTP statuses 200 to 299 mean success.
pub open spec fn is_http_success_spec(status: u16) -> bool {
    200 <= status <= 299
}

/// The text of the failure for an HTTP status outside the success range.
pub open spec fn http_error_text(status: u16) -> Seq<char> {
    "HTTP error: "@ + decimal(status as nat)
}

/// Accepts a successful HTTP status and turns any other into a failure.
pub fn check_http_status(status: u16) -> (r: Result<(), UploadError>)
    ensures
        r is Ok <==> is_http_success_spec(status),
        !is_http_success_spec(status) ==> (r matches Err(UploadError::Other(m)) && m@
            == http_error_text(status)),
{
    if 200 <= status && status <= 299 {
        Ok(())
    } else {
        let digits = decimal_string(status as u64);
        Err(UploadError::Other(join("HTTP error: ", digits.as_str())))
    }
}

/// The text of the failure for an envelope without a body.
pub open spec fn missing_body_text() -> Seq<char> {
    "Missing body in response"@
}

/// What checking `response` yields: a status code outside 20 to 29 is a
/// server error that carries the code and description; a success without a
/// body is an invalid response; otherwise the body.
pub open spec fn envelope_result<T>(response: ApiResponse<T>, r: Result<T, UploadError>) -> bool {
    if !is_success_code_spec(response.status_code) {
        &&& r matches Err(UploadError::ServerError { code, message })
        &&& code == response.status_code
        &&& message@ == response.description@
    } else {
        match response.body {
            Some(body) => r == Ok::<T, UploadError>(body),
            None => (r matches Err(UploadError::InvalidResponse(m)) && m@ == missing_body_text()),
        }
    }
}

/// Checks a decoded envelope and hands out its body on success.
pub fn validate_envelope<T>(response: ApiResponse<T>) -> (r: Result<T, UploadError>)
    ensures
        envelope_result(response, r),
{
    if !is_success_code(response.status_code) {
        return Err(
            UploadError::ServerError { code: response.status_code, message: response.description },
        );
    }
    match response.body {
        Some(body) => Ok(body),
        None => Err(UploadError::InvalidResponse(String::from_str("Missing body in response"))),
    }
}

/// What one attempt yields from an HTTP status and the decoded envelope:
/// the status is checked first, then the envelope.
pub open spec fn response_result<T>(
    http_status: u16,
    decoded: Result<ApiResponse<T>, UploadError>,
    r: Result<T, UploadError>,
) -> bool {
    if !is_http_success_spec(http_status) {
        r matches Err(UploadError::Other(m)) && m@ == http_error_text(http_status)
    } else {
        match decoded {
            Err(e) => r == Err::<T, UploadError>(e),
            Ok(response) => envelope_result(response, r),
        }
    }
}

/// One attempt's result from the HTTP status and the decoded envelope.
pub fn evaluate_response<T>(http_status: u16, decoded: Result<ApiResponse<T>, UploadError>) -> (r:
    Result<T, UploadError>)
    ensures
        response_result(http_status, decoded, r),
{
    match check_http_status(http_status) {
        Err(e) => Err(e),
        Ok(()) => match decoded {
            Err(e) => Err(e),
            Ok(response) => validate_envelope(response),
        },
    }
}

} // verus!
