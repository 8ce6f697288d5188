use zksync_remix::attribute::{AttributeMap, AttributeValue};
use zksync_remix::clock::UtcTime;
use zksync_remix::types::errors::ServerError;
use zksync_remix::types::item::{Item, Status};
use zksync_remix::types::task_result::{
    ArtifactInfo, ArtifactType, TaskFailure, TaskResult, TaskSuccess,
};

fn map_of(entries: Vec<(&str, AttributeValue)>) -> AttributeMap {
    AttributeMap::from_entries(
        entries
            .into_iter()
            .map(|(k, v)| (k.to_string(), v))
            .collect(),
    )
}

fn task_success_compile() -> TaskSuccess {
    TaskSuccess::Compile {
        artifacts_info: vec![
            ArtifactInfo {
                artifact_type: ArtifactType::Contract,
                presigned_url: "url1".to_string(),
                file_path: "path1".to_string(),
            },
            ArtifactInfo {
                artifact_type: ArtifactType::Contract,
                presigned_url: "url2".to_string(),
                file_path: "path2".to_string(),
            },
        ],
    }
}

fn task_success_compile_map() -> AttributeMap {
    map_of(vec![(
        "Compile",
        AttributeValue::L(vec![
            AttributeValue::Ss(vec![
                "Contract".to_string(),
                "path1".to_string(),
                "url1".to_string(),
            ]),
            AttributeValue::Ss(vec![
                "Contract".to_string(),
                "path2".to_string(),
                "url2".to_string(),
            ]),
        ]),
    )])
}

fn now() -> UtcTime {
    let t = chrono::Utc::now();
    UtcTime::from_timestamp(t.timestamp(), t.timestamp_subsec_nanos()).expect("representable time")
}

#[test]
fn test_status_pending_to_attribute_map() {
    let status = Status::Pending;
    let expected_map = map_of(vec![(Status::attribute_name(), AttributeValue::N("0".to_string()))]);

    let attribute_map = status.into_attribute_map();
    assert_eq!(attribute_map, expected_map);
}

#[test]
fn test_status_pending_from_attribute_map() {
    let attribute_map = map_of(vec![(Status::attribute_name(), AttributeValue::N("0".to_string()))]);

    let result = Status::try_from_attribute_map(&attribute_map).expect("Conversion failed");
    assert_eq!(result, Status::Pending);
}

#[test]
fn test_status_inprogress_to_attribute_map() {
    let status = Status::InProgress;
    let expected_map = map_of(vec![(Status::attribute_name(), AttributeValue::N("1".to_string()))]);

    let attribute_map = status.into_attribute_map();
    assert_eq!(attribute_map, expected_map);
}

#[test]
fn test_status_inprogress_from_attribute_map() {
    let attribute_map = map_of(vec![(Status::attribute_name(), AttributeValue::N("1".to_string()))]);

    let result = Status::try_from_attribute_map(&attribute_map).expect("Conversion failed");
    assert_eq!(result, Status::InProgress);
}

fn status_success_compile_map() -> AttributeMap {
    map_of(vec![
        (Status::attribute_name(), AttributeValue::N("2".to_string())),
        (
            TaskResult::attribute_name(),
            AttributeValue::M(map_of(vec![(
                TaskResult::success_attribute_name(),
                AttributeValue::M(task_success_compile_map()),
            )])),
        ),
    ])
}

#[test]
fn test_status_done_compile_success_to_attribute_map() {
    let expected_map = status_success_compile_map();

    let task_result = TaskResult::Success(task_success_compile());
    let status = Status::Done(task_result.clone());
    let attribute_map = status.into_attribute_map();

    assert_eq!(attribute_map, expected_map);
}

#[test]
fn test_status_done_compile_success_from_attribute_map() {
    let expected_result = Status::Done(TaskResult::Success(task_success_compile()));

    let attribute_map = status_success_compile_map();
    let result = Status::try_from_attribute_map(&attribute_map).expect("Conversion failed");

    assert_eq!(result, expected_result);
}

fn status_failure_compilation_map() -> AttributeMap {
    map_of(vec![
        (Status::attribute_name(), AttributeValue::N("3".to_string())),
        (
            TaskResult::attribute_name(),
            AttributeValue::M(map_of(vec![(
                TaskResult::failure_attribute_name(),
                AttributeValue::Ss(vec![
                    "CompilationError".to_string(),
                    "Compilation failed".to_string(),
                ]),
            )])),
        ),
    ])
}

#[test]
fn test_status_done_failure_to_attribute_map() {
    let expected_map = status_failure_compilation_map();

    let task_result = TaskResult::Failure(TaskFailure {
        error_type: ServerError::CompilationError,
        message: "Compilation failed".to_string(),
    });
    let status = Status::Done(task_result);
    let attribute_map = status.into_attribute_map();

    assert_eq!(attribute_map, expected_map);
}

#[test]
fn test_status_done_failure_from_attribute_map() {
    let expected_result = Status::Done(TaskResult::Failure(TaskFailure {
        error_type: ServerError::CompilationError,
        message: "Compilation failed".to_string(),
    }));

    let attribute_map = status_failure_compilation_map();
    let result = Status::try_from_attribute_map(&attribute_map).expect("Conversion failed");

    assert_eq!(result, expected_result);
}

#[test]
fn test_item_to_attribute_map() {
    let item = Item {
        id: uuid::Uuid::new_v4().as_u128(),
        status: Status::InProgress,
        created_at: now(),
    };

    let expected_map = map_of(vec![
        (
            Item::id_attribute_name(),
            AttributeValue::S(uuid::Uuid::from_u128(item.id).to_string()),
        ),
        (
            Item::created_at_attribute_name(),
            AttributeValue::S(item.created_at.to_rfc3339()),
        ),
        (Status::attribute_name(), AttributeValue::N("1".to_string())),
    ]);

    let attribute_map = item.clone().into_attribute_map();
    assert_eq!(attribute_map, expected_map);
}

#[test]
fn test_item_from_attribute_map() {
    let id = uuid::Uuid::new_v4();
    let created_at = now();
    let attribute_map = map_of(vec![
        (Item::id_attribute_name(), AttributeValue::S(id.to_string())),
        (
            Item::created_at_attribute_name(),
            AttributeValue::S(created_at.to_rfc3339()),
        ),
        (Status::attribute_name(), AttributeValue::N("1".to_string())),
    ]);

    let expected_item = Item {
        id: id.as_u128(),
        status: Status::InProgress,
        created_at,
    };

    let result = Item::try_from_attribute_map(&attribute_map).expect("Conversion failed");
    assert_eq!(result, expected_item);
}

#[test]
fn test_task_success_compile_to_attribute_map() {
    let task_success = task_success_compile();
    let expected_map = task_success_compile_map();

    let attribute_map = task_success.into_attribute_map();
    assert_eq!(attribute_map, expected_map);
}

#[test]
fn test_task_success_compile_from_attribute_map() {
    let attribute_map = task_success_compile_map();
    let expected_task_success = task_success_compile();

    let result = TaskSuccess::try_from_attribute_map(&attribute_map).expect("Conversion failed");
    assert_eq!(result, expected_task_success);
}

#[test]
fn test_task_success_verify_to_attribute_map() {
    let task_success = TaskSuccess::Verify {
        message: "Verification successful".to_string(),
    };

    let expected_map = map_of(vec![(
        "Verify",
        AttributeValue::S("Verification successful".to_string()),
    )]);

    let attribute_map = task_success.into_attribute_map();
    assert_eq!(attribute_map, expected_map);
}

#[test]
fn test_task_success_verify_from_attribute_map() {
    let attribute_map = map_of(vec![(
        "Verify",
        AttributeValue::S("Verification successful".to_string()),
    )]);

    let expected_task_success = TaskSuccess::Verify {
        message: "Verification successful".to_string(),
    };

    let result = TaskSuccess::try_from_attribute_map(&attribute_map).expect("Conversion failed");
    assert_eq!(result, expected_task_success);
}

#[test]
fn test_task_result_failure_to_attribute_map() {
    let task_result = TaskResult::Failure(TaskFailure {
        error_type: ServerError::CompilationError,
        message: "Compilation failed".to_string(),
    });

    let expected_map = map_of(vec![(
        "Failure",
        AttributeValue::Ss(vec!["CompilationError".into(), "Compilation failed".to_string()]),
    )]);

    let attribute_map = task_result.into_attribute_map();
    assert_eq!(attribute_map, expected_map);
}

#[test]
fn test_task_result_failure_from_attribute_map() {
    let attribute_map = map_of(vec![(
        "Failure",
        AttributeValue::Ss(vec!["CompilationError".into(), "Compilation failed".to_string()]),
    )]);

    let expected_task_result = TaskResult::Failure(TaskFailure {
        error_type: ServerError::CompilationError,
        message: "Compilation failed".to_string(),
    });

    let result = TaskResult::try_from_attribute_map(&attribute_map).expect("Conversion failed");
    assert_eq!(result, expected_task_result);
}

#[test]
fn test_task_result_success_compile_to_attribute_map() {
    let task_result = TaskResult::Success(task_success_compile());

    let expected_map = map_of(vec![("Success", AttributeValue::M(task_success_compile_map()))]);

    let attribute_map = task_result.into_attribute_map();
    assert_eq!(attribute_map, expected_map);
}

#[test]
fn test_task_result_success_compile_from_attribute_map() {
    let attribute_map = map_of(vec![("Success", AttributeValue::M(task_success_compile_map()))]);

    let expected_task_result = TaskResult::Success(task_success_compile());

    let result = TaskResult::try_from_attribute_map(&attribute_map).expect("Conversion failed");
    assert_eq!(result, expected_task_result);
}

#[test]
fn test_task_result_success_verify_to_attribute_map() {
    let task_result = TaskResult::Success(TaskSuccess::Verify {
        message: "Verification successful".to_string(),
    });

    let expected_map = map_of(vec![(
        "Success",
        AttributeValue::M(map_of(vec![(
            "Verify",
            AttributeValue::S("Verification successful".to_string()),
        )])),
    )]);

    let attribute_map = task_result.into_attribute_map();
    assert_eq!(attribute_map, expected_map);
}

#[test]
fn test_task_result_success_verify_from_attribute_map() {
    let attribute_map = map_of(vec![(
        "Success",
        AttributeValue::M(map_of(vec![(
            "Verify",
            AttributeValue::S("Verification successful".to_string()),
        )])),
    )]);

    let expected_task_result = TaskResult::Success(TaskSuccess::Verify {
        message: "Verification successful".to_string(),
    });

    let result = TaskResult::try_from_attribute_map(&attribute_map).expect("Conversion failed");
    assert_eq!(result, expected_task_result);
}
