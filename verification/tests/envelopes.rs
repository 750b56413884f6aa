use texcompile_client::envelope::{
    classify_http_status, decode_upload, UploadData, UploadEnvelope,
};
use texcompile_client::errors::ClientError;

fn upload_reply(
    success: bool,
    task_id: Option<&str>,
    error: Option<&str>,
    message: Option<&str>,
) -> UploadEnvelope {
    UploadEnvelope {
        success,
        data: task_id.map(|t| UploadData { task_id: String::from(t) }),
        error: error.map(String::from),
        message: message.map(String::from),
    }
}

#[test]
fn successful_upload_yields_the_task_identifier() {
    let r = decode_upload(&upload_reply(true, Some("task-42"), None, None));
    assert_eq!(r.unwrap(), "task-42");
}

#[test]
fn failed_upload_propagates_the_service_error_text() {
    match decode_upload(&upload_reply(false, None, Some("file too large"), None)) {
        Err(ClientError::ProtocolError { message }) => assert_eq!(message, "file too large"),
        _ => panic!("expected a protocol error"),
    }
}

#[test]
fn failed_upload_falls_back_to_the_message_field() {
    match decode_upload(&upload_reply(false, None, None, Some("busy"))) {
        Err(ClientError::ProtocolError { message }) => assert_eq!(message, "busy"),
        _ => panic!("expected a protocol error"),
    }
}

#[test]
fn error_text_takes_precedence_over_message_text() {
    match decode_upload(&upload_reply(false, None, Some("quota"), Some("busy"))) {
        Err(ClientError::ProtocolError { message }) => assert_eq!(message, "quota"),
        _ => panic!("expected a protocol error"),
    }
}

#[test]
fn failed_upload_without_any_text_reports_a_generic_error() {
    match decode_upload(&upload_reply(false, None, None, None)) {
        Err(ClientError::ProtocolError { message }) => assert_eq!(message, "Unknown error"),
        _ => panic!("expected a protocol error"),
    }
}

#[test]
fn successful_upload_without_a_task_identifier_is_a_protocol_error() {
    match decode_upload(&upload_reply(true, None, None, None)) {
        Err(ClientError::ProtocolError { message }) => {
            assert_eq!(message, "No task ID in response")
        },
        _ => panic!("expected a protocol error"),
    }
}

#[test]
fn two_hundred_range_codes_are_success() {
    assert!(classify_http_status(200, String::new()).is_ok());
    assert!(classify_http_status(204, String::new()).is_ok());
    assert!(classify_http_status(299, String::new()).is_ok());
}

#[test]
fn other_codes_become_transport_errors_with_the_body() {
    for bad in [199u16, 301, 404, 500] {
        match classify_http_status(bad, String::from("oops")) {
            Err(ClientError::TransportError { code, body }) => {
                assert_eq!(code, bad);
                assert_eq!(body, "oops");
            },
            _ => panic!("expected a transport error for {}", bad),
        }
    }
}
