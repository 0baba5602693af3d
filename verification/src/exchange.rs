//! Execution and normalization: a transport carries a composed request
//! through its phases — open/start, write the body when there is one,
//! finalize/send, read the response body — and reports back one outcome.
//! Normalization collapses that outcome into exactly one response or one
//! error, each failure mapped to the variant of the phase that failed.

use vstd::prelude::*;
use crate::error::RestError;
use crate::response::Response;

verus! {

/// What one run of the transport reported, one variant per terminal state of
/// the pipeline.  The failure variants carry the transport's detail text and
/// name the phase that failed, in phase order; a completed run carries the
/// numeric status, the headers as received, and the fully read body text.
pub enum TransportOutcome {
    StartFailed(String),
    BodyWriteFailed(String),
    SendFailed(String),
    BodyReadFailed(String),
    Completed(u16, Vec<(String, String)>, String),
}

/// Turn a transport outcome into the caller's result.  Failures while
/// opening or finalizing the request become the transport/request error;
/// failures while writing the request body or reading the response body
/// become the I/O error; a completed run becomes the response, with status,
/// headers and body taken over unchanged and the numeric code duplicated
/// from the status.
pub fn normalize(outcome: TransportOutcome) -> (r: Result<Response, RestError>)
    ensures
        r is Ok <==> outcome is Completed,
        outcome matches TransportOutcome::StartFailed(d) ==> r matches Err(e) && e matches RestError::HttpRequestError(m) && m@ == d@,
        outcome matches TransportOutcome::BodyWriteFailed(d) ==> r matches Err(e) && e matches RestError::HttpIoError(m) && m@ == d@,
        outcome matches TransportOutcome::SendFailed(d) ==> r matches Err(e) && e matches RestError::HttpRequestError(m) && m@ == d@,
        outcome matches TransportOutcome::BodyReadFailed(d) ==> r matches Err(e) && e matches RestError::HttpIoError(m) && m@ == d@,
        outcome matches TransportOutcome::Completed(status, headers, body) ==> r matches Ok(resp)
            && resp.code == status as i32 && resp.status == status && resp.headers == headers
            && resp.body == body && resp.well_formed(),
{
    match outcome {
        TransportOutcome::StartFailed(d) => Err(RestError::HttpRequestError(d)),
        TransportOutcome::BodyWriteFailed(d) => Err(RestError::HttpIoError(d)),
        TransportOutcome::SendFailed(d) => Err(RestError::HttpRequestError(d)),
        TransportOutcome::BodyReadFailed(d) => Err(RestError::HttpIoError(d)),
        TransportOutcome::Completed(status, headers, body) => Ok(
            Response { code: status as i32, status, headers, body },
        ),
    }
}

} // verus!
