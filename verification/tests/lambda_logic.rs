use zksync_remix::attribute::AttributeMap;
use zksync_remix::clock::UtcTime;
use zksync_remix::lambdas::{
    check_objects_present, error_string_to_json, extract_uuid_from_path, poll_outcome,
    registration_item, registration_outcome, running_body, sources_prefix, ExtractRequestError,
    LambdaError, PollOutcome, RegistrationFailure, NO_OBJECTS_TO_COMPILE_ERROR, NO_SUCH_ITEM,
    RECOMPILATION_ATTEMPT_ERROR,
};
use zksync_remix::types::errors::ServerError;
use zksync_remix::types::item::{Item, Status};
use zksync_remix::types::task_result::{TaskFailure, TaskResult};

#[test]
fn errors_answer_with_status_and_json() {
    assert_eq!(error_string_to_json("bad \"x\""), "{\"error\":\"bad \\\"x\\\"\"}");
    assert_eq!(
        LambdaError::ConflictError(RECOMPILATION_ATTEMPT_ERROR.to_string()).into_response(),
        (409, "{\"error\":\"Recompilation attempt\"}".to_string())
    );
    assert_eq!(LambdaError::BadRequestError("b".to_string()).status_code(), 400);
    assert_eq!(LambdaError::NotFoundError("n".to_string()).status_code(), 404);
    assert_eq!(LambdaError::InternalError("i".to_string()).status_code(), 500);
    assert_eq!(
        ExtractRequestError::EmptyPayloadError.into_lambda_error(),
        LambdaError::BadRequestError("Request payload is empty".to_string())
    );
    assert_eq!(
        ExtractRequestError::PayloadError("eof".to_string()).to_display_string(),
        "PayloadError: eof"
    );
}

#[test]
fn registration() {
    assert_eq!(sources_prefix("abc"), "abc/");
    assert_eq!(
        check_objects_present(false),
        Err(LambdaError::BadRequestError(NO_OBJECTS_TO_COMPILE_ERROR.to_string()))
    );
    assert_eq!(check_objects_present(true), Ok(()));
    assert_eq!(
        registration_outcome(Err(RegistrationFailure::AlreadyExists)),
        Err(LambdaError::ConflictError("Recompilation attempt".to_string()))
    );
    assert_eq!(
        registration_outcome(Err(RegistrationFailure::Other("x".to_string()))),
        Err(LambdaError::InternalError("x".to_string()))
    );
    let t = UtcTime::from_timestamp(1_700_000_000, 0).expect("time");
    let m = registration_item(5, t);
    let back = Item::try_from_attribute_map(&m).expect("an item");
    assert_eq!(back, Item { id: 5, status: Status::Pending, created_at: t });
    assert_eq!(poll_outcome(Some(&m)), Ok(PollOutcome::Running));
}

#[test]
fn polling() {
    let id = uuid::Uuid::new_v4();
    assert_eq!(extract_uuid_from_path(&format!("/poll/{}", id)), Ok(id.as_u128()));
    assert!(matches!(
        extract_uuid_from_path("/poll/not-a-uuid"),
        Err(LambdaError::BadRequestError(m)) if m.starts_with("Invalid UUID: ")
    ));
    assert_eq!(
        poll_outcome(None),
        Err(LambdaError::NotFoundError(NO_SUCH_ITEM.to_string()))
    );
    let t = UtcTime::from_timestamp(1_700_000_000, 0).expect("time");
    let running = Item { id: 1, status: Status::InProgress, created_at: t }.into_attribute_map();
    assert_eq!(poll_outcome(Some(&running)), Ok(PollOutcome::Running));
    let result = TaskResult::Failure(TaskFailure {
        error_type: ServerError::CompilationError,
        message: "m".to_string(),
    });
    let done = Item { id: 1, status: Status::Done(result.clone()), created_at: t }.into_attribute_map();
    assert_eq!(poll_outcome(Some(&done)), Ok(PollOutcome::Done(result)));
    assert_eq!(
        poll_outcome(Some(&AttributeMap::new())),
        Err(LambdaError::InternalError("Invalid Item format: No ID attribute in item".to_string()))
    );
    assert_eq!(running_body(), "{\"status\":\"Running\"}");
}

#[test]
fn instants_as_rfc3339_text() {
    let epoch = UtcTime::from_timestamp(0, 0).expect("time");
    assert_eq!(epoch.to_rfc3339(), "1970-01-01T00:00:00+00:00");
    let t = UtcTime::from_timestamp(1_700_000_000, 500_000_000).expect("time");
    assert_eq!(t.to_rfc3339(), "2023-11-14T22:13:20.500+00:00");
    let back = UtcTime::parse_from_rfc3339("2023-11-14T22:13:20.500+00:00").expect("parses");
    assert_eq!(back, t);
    assert!(UtcTime::parse_from_rfc3339("yesterday").is_err());
    assert_eq!(UtcTime::from_timestamp(i64::MAX, 0), None);
    assert!(UtcTime::now().is_some());
}

#[test]
fn json_strings_escape_as_serde_json_does() {
    for s in ["plain", "quote \" and \\ backslash", "\u{1}\u{1f}\u{7f}", "tab\tnl\ncr\rff\u{c}bs\u{8}", "é ✓ 🦀", ""] {
        let quoted = serde_json::Value::String(s.to_string()).to_string();
        assert_eq!(error_string_to_json(s), format!("{{\"error\":{quoted}}}"), "{s:?}");
    }
    assert_eq!(error_string_to_json("\u{1}"), "{\"error\":\"\\u0001\"}");
    assert_eq!(error_string_to_json("\u{1f}"), "{\"error\":\"\\u001f\"}");
    assert_eq!(error_string_to_json("a\nb"), "{\"error\":\"a\\nb\"}");
}
