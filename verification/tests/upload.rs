use clip_upload::request::{build_upload_request, RequestError};
use clip_upload::response::{
    interpret_response, render_outcome, TransportResult, UploadOutcome,
};

#[test]
fn built_request_target_and_cookie() {
    let req = build_upload_request("clip.mp4".to_string(), "secret".to_string(), None)
        .expect("valid arguments");
    assert_eq!(req.target_url, "https://clips.lillie.rs/upload");
    assert!(req.target_url.ends_with("/upload"));
    assert_eq!(req.cookie_header, "tk=secret; Domain=https://clips.lillie.rs");
    assert!(req.cookie_header.contains("tk=secret"));
    assert_eq!(req.file_path, "clip.mp4");
    assert_eq!(req.auth_token, "secret");
}

#[test]
fn config_absent_when_not_given() {
    let req = build_upload_request("clip.mp4".to_string(), "secret".to_string(), None)
        .expect("valid arguments");
    assert_eq!(req.config_id, None);
}

#[test]
fn config_present_exactly_once_and_round_trips() {
    let req = build_upload_request("clip.mp4".to_string(), "secret".to_string(), Some(42))
        .expect("valid arguments");
    let rendered = req.config_id.expect("config value present");
    assert_eq!(rendered, "42");
    assert_eq!(rendered.parse::<u64>().unwrap(), 42);
}

#[test]
fn config_round_trips_at_largest_value() {
    let req = build_upload_request(
        "clip.mp4".to_string(),
        "secret".to_string(),
        Some(u64::MAX),
    )
    .expect("valid arguments");
    let rendered = req.config_id.expect("config value present");
    assert_eq!(rendered, "18446744073709551615");
    assert_eq!(rendered.parse::<u64>().unwrap(), u64::MAX);
}

#[test]
fn ok_response_with_file_field_is_success() {
    let outcome = interpret_response(TransportResult::Response {
        status: 200,
        body: "{\"file\":\"clip123.mp4\"}".to_string(),
    });
    match &outcome {
        UploadOutcome::Success { file } => assert_eq!(file, "clip123.mp4"),
        _ => panic!("expected a success outcome"),
    }
    assert_eq!(render_outcome(&outcome), "clip123.mp4 is currently processing");
}

#[test]
fn error_status_with_message_field_is_service_failure() {
    let outcome = interpret_response(TransportResult::Response {
        status: 403,
        body: "{\"message\":\"invalid token\"}".to_string(),
    });
    match &outcome {
        UploadOutcome::ServiceFailure { message } => assert_eq!(message, "invalid token"),
        _ => panic!("expected a service failure"),
    }
    assert_eq!(
        render_outcome(&outcome),
        "An error occurred with the upload request: invalid token"
    );
}

#[test]
fn ok_response_without_file_field_is_transport_failure() {
    let outcome = interpret_response(TransportResult::Response {
        status: 200,
        body: "{\"unexpected\":1}".to_string(),
    });
    assert!(matches!(outcome, UploadOutcome::TransportFailure { .. }));
    assert!(!matches!(outcome, UploadOutcome::Success { .. }));
}

#[test]
fn ok_response_with_malformed_body_is_transport_failure() {
    let outcome = interpret_response(TransportResult::Response {
        status: 200,
        body: "not json at all".to_string(),
    });
    assert!(matches!(outcome, UploadOutcome::TransportFailure { .. }));
    assert_eq!(
        render_outcome(&outcome),
        "An error occurred with the upload request: could not decode the response body"
    );
}

#[test]
fn ok_response_with_non_string_file_field_is_transport_failure() {
    let outcome = interpret_response(TransportResult::Response {
        status: 200,
        body: "{\"file\":7}".to_string(),
    });
    assert!(matches!(outcome, UploadOutcome::TransportFailure { .. }));
}

#[test]
fn error_status_with_undecodable_body_is_transport_failure() {
    let outcome = interpret_response(TransportResult::Response {
        status: 500,
        body: "garbage".to_string(),
    });
    assert!(matches!(outcome, UploadOutcome::TransportFailure { .. }));
}

#[test]
fn only_status_200_counts_as_success() {
    let outcome = interpret_response(TransportResult::Response {
        status: 201,
        body: "{\"file\":\"clip123.mp4\",\"message\":\"created\"}".to_string(),
    });
    match &outcome {
        UploadOutcome::ServiceFailure { message } => assert_eq!(message, "created"),
        _ => panic!("expected a service failure"),
    }
}

#[test]
fn transport_failure_keeps_the_transport_detail() {
    let outcome = interpret_response(TransportResult::Failure {
        detail: "connection refused".to_string(),
    });
    match &outcome {
        UploadOutcome::TransportFailure { detail } => assert_eq!(detail, "connection refused"),
        _ => panic!("expected a transport failure"),
    }
    assert_eq!(
        render_outcome(&outcome),
        "An error occurred with the upload request: connection refused"
    );
}

#[test]
fn empty_path_is_rejected_before_any_transport() {
    let err = build_upload_request(String::new(), "secret".to_string(), None)
        .expect_err("an empty path is rejected");
    assert_eq!(err, RequestError::MissingFilePath);
    assert_eq!(err.message(), "please supply a file to upload");
}

#[test]
fn empty_token_is_rejected() {
    let err = build_upload_request("clip.mp4".to_string(), String::new(), None)
        .expect_err("an empty token is rejected");
    assert_eq!(err, RequestError::MissingToken);
    assert_eq!(err.message(), "please supply a token for the service");
}

#[test]
fn zero_config_id_is_rejected() {
    let err = build_upload_request("clip.mp4".to_string(), "secret".to_string(), Some(0))
        .expect_err("a zero config id is rejected");
    assert_eq!(err, RequestError::InvalidConfigId);
    assert_eq!(err.message(), "the config id must be a positive integer");
}
