//! The service's response envelopes and their decoding.
//!
//! Both endpoints answer with a uniform success-flagged envelope; the
//! unverified front end turns the wire JSON into these records, and the
//! functions here decide what each envelope means.

use vstd::prelude::*;

use crate::errors::ClientError;
use crate::status::StatusData;

verus! {

/// The payload of a successful upload: the task identifier.
pub struct UploadData {
    pub task_id: String,
}

/// The upload endpoint's envelope.
pub struct UploadEnvelope {
    pub success: bool,
    pub data: Option<UploadData>,
    pub error: Option<String>,
    pub message: Option<String>,
}

/// The status endpoint's envelope.
pub struct StatusEnvelope {
    pub success: bool,
    pub data: Option<StatusData>,
    pub error: Option<String>,
}

/// The error text reported for a failed upload envelope: `error` if
/// present, else `message`, else a generic fallback.
pub open spec fn spec_upload_error_text(e: UploadEnvelope) -> Seq<char> {
    match e.error {
        Some(t) => t@,
        None => match e.message {
            Some(t) => t@,
            None => "Unknown error"@,
        },
    }
}

/// The error text reported for a failed status envelope: `error` if
/// present, else a generic fallback.
pub open spec fn spec_status_error_text(e: StatusEnvelope) -> Seq<char> {
    match e.error {
        Some(t) => t@,
        None => "Unknown error"@,
    }
}

/// Whether an HTTP status code counts as success.
pub open spec fn spec_http_success(code: u16) -> bool {
    200 <= code < 300
}

/// Classifies an endpoint's HTTP status: a non-success code becomes a
/// transport error carrying the code and the response body text.
pub fn classify_http_status(code: u16, body: String) -> (r: Result<(), ClientError>)
    ensures
        r is Ok <==> spec_http_success(code),
        r matches Err(e) ==> e matches ClientError::TransportError { code: c, body: b }
            && c == code && b@ == body@,
{
    if 200 <= code && code < 300 {
        Ok(())
    } else {
        Err(ClientError::TransportError { code, body })
    }
}

/// Decodes the upload endpoint's envelope into the task identifier:
/// a failed envelope propagates the service's error text, and a success
/// envelope without a payload is a protocol error.
pub fn decode_upload(e: &UploadEnvelope) -> (r: Result<String, ClientError>)
    ensures
        r is Ok <==> e.success && e.data is Some,
        r matches Ok(task) ==> e.data matches Some(d) && task@ == d.task_id@,
        !e.success ==> (r matches Err(err) && err matches ClientError::ProtocolError { message }
            && message@ == spec_upload_error_text(*e)),
        e.success && e.data is None ==> (r matches Err(err) && err
            matches ClientError::ProtocolError { message } && message@
            == "No task ID in response"@),
{
    if !e.success {
        let message = match &e.error {
            Some(t) => t.clone(),
            None => match &e.message {
                Some(t) => t.clone(),
                None => "Unknown error".to_owned(),
            },
        };
        return Err(ClientError::ProtocolError { message });
    }
    match &e.data {
        Some(d) => Ok(d.task_id.clone()),
        None => Err(ClientError::ProtocolError {
            message: "No task ID in response".to_owned(),
        }),
    }
}

} // verus!
