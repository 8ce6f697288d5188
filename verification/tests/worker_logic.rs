use zksync_remix::attribute::{AttributeMap, AttributeValue};
use zksync_remix::clock::UtcTime;
use zksync_remix::types::errors::ServerError;
use zksync_remix::types::item::{Item, Status};
use zksync_remix::types::task_result::{
    ArtifactInfo, ArtifactType, TaskFailure, TaskResult, TaskSuccess,
};
use zksync_remix::types::{CompilationConfig, CompilationRequest, VerifyConfig};
use zksync_remix::worker::commands::{
    artifact_data, compile_command_args, ArtifactData, extract_verify_args, prepare_compile_workspace,
    prepare_verify_workspace, process_output, verification_outcome, CompilationError,
    CompilationFile, CompilationInput, VerificationError,
};
use zksync_remix::worker::layout::{
    get_file_ext, is_supported_version, s3_artifact_key, s3_artifacts_dir,
    s3_compilation_files_dir, status_code_to_message,
};
use zksync_remix::worker::processing::{
    check_compile_preconditions, compilation_input, compiling_status_outcome,
    compile_step, generate_artifact_pairs, handle_preparation_error, record_compiled_output,
    validate_message, CompileAction, CompileEvent, CompileProcessorError, PreparationError, StatusUpdateFailure, VerifyProcessorError,
};
use zksync_remix::worker::purgatory::{
    absorb_page, purge_item_actions, PurgeAction, State, SyncStep, DURATION_TO_PURGE,
};
use zksync_remix::worker::retry::{
    handle_action_result, is_retriable, keep_unhandled, match_result, receive_into,
    remaining_pause, route_direct_attempt, state_after, sweep_pending, tries_directly,
    ActionResolution,
    ConnectionState, DirectRoute, DispatchFailureKind, RetryErrorKind, SdkFailure,
    SweepOutcome,
};
use zksync_remix::worker::storage::{
    compilation_failure_update, compilation_success_update, delete_dir_plan, listed_object,
    absorb_listing_page, next_listing_token, read_size_matches, retried_status_update_request, scan_prior_to_request,
    status_update_request, ObjectProblem,
};


fn request(version: &str) -> CompilationRequest {
    CompilationRequest {
        id: "task-1".to_string(),
        config: CompilationConfig {
            version: version.to_string(),
            user_libraries: vec![],
            target_path: None,
        },
    }
}

fn at(secs: i64) -> UtcTime {
    UtcTime::from_timestamp(secs, 0).expect("representable time")
}

#[test]
fn transient_failures_are_retried() {
    assert!(is_retriable(&SdkFailure::TimeoutError));
    assert!(is_retriable(&SdkFailure::DispatchFailure(DispatchFailureKind::Io)));
    assert!(is_retriable(&SdkFailure::DispatchFailure(DispatchFailureKind::Timeout)));
    assert!(!is_retriable(&SdkFailure::DispatchFailure(DispatchFailureKind::User)));
    assert!(is_retriable(&SdkFailure::DispatchFailure(DispatchFailureKind::Other(Some(
        RetryErrorKind::ThrottlingError
    )))));
    assert!(!is_retriable(&SdkFailure::DispatchFailure(DispatchFailureKind::Other(Some(
        RetryErrorKind::ClientError
    )))));
    assert!(is_retriable(&SdkFailure::DispatchFailure(DispatchFailureKind::Other(Some(
        RetryErrorKind::Unnamed
    )))));
    assert!(!is_retriable(&SdkFailure::DispatchFailure(DispatchFailureKind::Other(None))));
    assert!(!is_retriable(&SdkFailure::ConstructionFailure));
    assert!(!is_retriable(&SdkFailure::ServiceError));
    assert_eq!(match_result::<u8, &str>(Ok(7)), Ok(Some(7)));
    assert_eq!(match_result::<u8, &str>(Err(("slow", SdkFailure::TimeoutError))), Ok(None));
    assert_eq!(match_result::<u8, &str>(Err(("bad", SdkFailure::ServiceError))), Err("bad"));
}

#[test]
fn attempt_outcomes() {
    assert_eq!(
        handle_action_result::<u8, &str>(Ok(Some(1))),
        ActionResolution::Deliver { result: Ok(1), state: Some(ConnectionState::Connected) }
    );
    assert_eq!(handle_action_result::<u8, &str>(Ok(None)), ActionResolution::Keep);
    assert_eq!(
        handle_action_result::<u8, &str>(Err("e")),
        ActionResolution::Deliver { result: Err("e"), state: None }
    );
    assert_eq!(route_direct_attempt::<u8, &str>(Ok(Some(3))), DirectRoute::Return(Ok(3)));
    assert_eq!(route_direct_attempt::<u8, &str>(Ok(None)), DirectRoute::Queue);
    assert!(tries_directly(0));
    assert!(!tries_directly(1));
    assert_eq!(ConnectionState::Reconnecting.code(), 1);
    assert_eq!(ConnectionState::from_code(0), Some(ConnectionState::Connected));
    assert_eq!(ConnectionState::from_code(2), None);
}

#[test]
fn queues_keep_unhandled_actions_in_order() {
    assert_eq!(keep_unhandled(vec![Some('a'), None, Some('c'), None]), vec!['a', 'c']);
    assert_eq!(keep_unhandled::<char>(vec![None, None]), Vec::<char>::new());
    assert_eq!(
        sweep_pending(vec![
            SweepOutcome::Retained('a'),
            SweepOutcome::Delivered { received: true },
            SweepOutcome::Retained('c'),
            SweepOutcome::Delivered { received: false },
            SweepOutcome::Retained('e'),
        ]),
        vec!['a', 'c']
    );
    let mut pending = vec![1];
    assert!(receive_into(&mut pending, Some(2)));
    assert_eq!(pending, vec![1, 2]);
    assert!(!receive_into(&mut pending, None));
    assert_eq!(pending, vec![1, 2]);
    assert_eq!(remaining_pause(1000), Some(2000));
    assert_eq!(remaining_pause(3000), Some(0));
    assert_eq!(remaining_pause(3001), None);
}

#[test]
fn storage_layout() {
    assert_eq!(s3_artifacts_dir("id"), "artifacts/id/");
    assert_eq!(s3_compilation_files_dir("id"), "id/");
    assert_eq!(s3_artifact_key("id", "contracts/A.json"), "artifacts/id/contracts/A.json");
    assert_eq!(get_file_ext("x.sol"), "sol");
    assert_eq!(status_code_to_message(Some(1)), "CompilationFailed");
    assert!(is_supported_version("1.4.1"));
    assert!(!is_supported_version("1.5.6"));
    assert_eq!(
        zksync_remix::worker::layout::try_get_file_path("1.4.1", "B.sol"),
        Some("hardhat_env/workspaces/1.4.1/B/B.sol".to_string())
    );
    assert_eq!(
        zksync_remix::worker::layout::get_file_path("1.4.1", "notes.txt"),
        "hardhat_env/workspaces/1.4.1/notes.txt"
    );
}

#[test]
fn purgatory_records_and_purges() {
    let id = 0x1234_5678_9abc_def0_1234_5678_9abc_def0u128;
    let id_text = uuid::Uuid::from_u128(id).to_string();
    let result = TaskResult::Failure(TaskFailure {
        error_type: ServerError::InternalError,
        message: "m".to_string(),
    });
    let mut state = State::new();
    state.add_record(id, result.clone(), 1000);
    assert_eq!(state.status_of(id), Some(&Status::Done(result.clone())));
    assert!(state.purge_plan(1000 + DURATION_TO_PURGE - 1).is_empty());
    assert_eq!(
        state.purge_plan(1000 + DURATION_TO_PURGE),
        vec![
            PurgeAction::DeleteDir(format!("artifacts/{}/", id_text)),
            PurgeAction::DeleteItem(id_text.clone())
        ]
    );
    state.retain_unexpired(1000 + DURATION_TO_PURGE - 1);
    assert!(state.status_of(id).is_some());
    state.retain_unexpired(1000 + DURATION_TO_PURGE);
    assert!(state.status_of(id).is_none());
    assert!(state.purge_plan(u64::MAX).is_empty());

    assert!(state.add_record_now(id, result.clone()));
    assert_eq!(state.status_of(id), Some(&Status::Done(result)));
    let now = zksync_remix::clock::timestamp().expect("the clock reads after the epoch");
    assert!(state.purge_plan(now).is_empty());
}

#[test]
fn purging_by_status() {
    let id = 42u128;
    let t = uuid::Uuid::from_u128(id).to_string();
    assert!(purge_item_actions(id, &Status::InProgress).is_empty());
    assert_eq!(
        purge_item_actions(id, &Status::Pending),
        vec![
            PurgeAction::DeleteDir(format!("{}/", t)),
            PurgeAction::DeleteDir(format!("{}/", t)),
            PurgeAction::DeleteItem(t.clone())
        ]
    );
}

#[test]
fn sweep_collects_pages_up_to_capacity() {
    let item = Item { id: 7, status: Status::Pending, created_at: at(1_700_000_000) };
    let mut items = Vec::new();
    assert_eq!(absorb_page(&mut items, None, true), Ok(SyncStep::Done));
    let page = vec![item.clone().into_attribute_map(), item.clone().into_attribute_map()];
    assert_eq!(absorb_page(&mut items, Some(page), true), Ok(SyncStep::Continue));
    assert_eq!(items.len(), 2);
    assert_eq!(items[0], item);
    let page = vec![item.clone().into_attribute_map()];
    assert_eq!(absorb_page(&mut items, Some(page), false), Ok(SyncStep::Done));
    assert_eq!(items.len(), 3);
    let bad = vec![AttributeMap::new()];
    assert!(absorb_page(&mut items, Some(bad), true).is_err());
    assert_eq!(items.len(), 3);
}

#[test]
fn compiler_output_meaning() {
    assert_eq!(
        process_output(false, "", "boom"),
        Err(CompilationError::CompilationFailureError("boom".to_string()))
    );
    assert_eq!(
        process_output(true, "Nothing to compile\n", ""),
        Err(CompilationError::NothingToCompileError)
    );
    assert_eq!(process_output(true, "Compiled 1 Solidity file", ""), Ok(()));
    assert_eq!(
        CompilationError::UnknownError("x".to_string()).to_display_string(),
        "UnknownError: x"
    );
}

#[test]
fn compile_workspace_leaves_out_test_files() {
    let input = CompilationInput {
        workspace_path: "ws/id".to_string(),
        config: CompilationConfig {
            version: "1.4.1".to_string(),
            user_libraries: vec![],
            target_path: Some("./src".to_string()),
        },
        contracts: vec![
            CompilationFile { file_path: "A.sol".to_string(), file_content: vec![1] },
            CompilationFile { file_path: "dir/_test.sol".to_string(), file_content: vec![2] },
            CompilationFile { file_path: "A_test.sol".to_string(), file_content: vec![3] },
        ],
    };
    let w = prepare_compile_workspace(input);
    assert_eq!(w.artifacts_path, "ws/id/artifacts-zk");
    assert_eq!(w.hardhat_config_path, "ws/id/hardhat.config.ts");
    assert!(w.hardhat_config_content.contains("paths: {sources: \"./src\"}"));
    let paths: Vec<&str> = w.contracts.iter().map(|c| c.file_path.as_str()).collect();
    assert_eq!(paths, vec!["A.sol", "A_test.sol"]);
    assert_eq!(compile_command_args(), vec!["hardhat", "compile"]);
}

#[test]
fn artifacts_are_described_by_path_component() {
    let a = artifact_data("ws/artifacts-zk", "ws/artifacts-zk/contracts/A.sol/A.json").expect("inside");
    assert_eq!(a, ArtifactData { file_path: "contracts/A.sol/A.json".to_string(), is_contract: false });
    let b = artifact_data("ws/artifacts-zk", "ws/artifacts-zk/.json").expect("inside");
    assert!(b.is_contract);
    assert_eq!(artifact_data("ws/artifacts-zk", "other/A.json"), None);
}

#[test]
fn verification_commands() {
    let config = VerifyConfig {
        zksolc_version: "1.4.1".to_string(),
        solc_version: Some("0.8.20".to_string()),
        network: "sepolia".to_string(),
        contract_address: "0x1".to_string(),
        inputs: vec![],
        target_contract: None,
    };
    assert_eq!(
        extract_verify_args(&config),
        vec!["hardhat", "verify", "--network", "zkSyncTestnet", "0x1"]
    );
    let w = prepare_verify_workspace("ws", &config).expect("allowed network");
    assert!(w.hardhat_config_content.contains("version: \"0.8.20\""));
    let mut other = config.clone();
    other.network = "goerli".to_string();
    assert_eq!(
        prepare_verify_workspace("ws", &other).err(),
        Some(VerificationError::UnknownNetworkError("goerli".to_string()))
    );
    assert_eq!(verification_outcome(true, "ok".to_string()), Ok("ok".to_string()));
    let failure = VerificationError::VerificationFailureError("no".to_string()).into_task_failure();
    assert_eq!(failure.error_type, ServerError::UnsupportedCompilerVersion);
    assert_eq!(failure.message, "no");
}

#[test]
fn processing_errors_become_failures() {
    let f = CompileProcessorError::CompilationError(CompilationError::NothingToCompileError)
        .into_task_failure();
    assert_eq!(f.error_type, ServerError::NothingToCompile);
    assert_eq!(f.message, "Nothing to compile");
    let f = CompileProcessorError::CompilationError(CompilationError::CompilationFailureError(
        "e".to_string(),
    ))
    .into_task_failure();
    assert_eq!(f.error_type, ServerError::CompilationError);
    assert_eq!(f.message, "CompilationFailureError: e");
    let f = CompileProcessorError::VersionNotSupportedError("0.1".to_string()).into_task_failure();
    assert_eq!(f.error_type, ServerError::UnsupportedCompilerVersion);
    assert_eq!(f.message, "0.1");
    assert_eq!(
        CompileProcessorError::UnknownError("u".to_string()).to_display_string(),
        "UnknownError: u"
    );
    let f = VerifyProcessorError::VerificationError(VerificationError::UnknownNetworkError(
        "n".to_string(),
    ))
    .into_task_failure();
    assert_eq!(f.error_type, ServerError::VerificationError);
}

#[test]
fn preparation_decisions() {
    assert!(validate_message(&request("1.4.0")).is_ok());
    assert_eq!(
        validate_message(&request("1.5.6")),
        Err(CompileProcessorError::VersionNotSupportedError("1.5.6".to_string()))
    );
    let pending = Item { id: 1, status: Status::Pending, created_at: at(0) };
    let running = Item { id: 1, status: Status::InProgress, created_at: at(0) };
    assert_eq!(check_compile_preconditions(&request("1.4.1"), Some(&pending)), Ok(()));
    assert_eq!(
        check_compile_preconditions(&request("1.4.1"), Some(&running)),
        Err(PreparationError::UnexpectedStatusError("InProgress".to_string()))
    );
    assert_eq!(
        check_compile_preconditions(&request("1.4.1"), None),
        Err(PreparationError::NoDBItemError("task-1".to_string()))
    );
    assert_eq!(
        check_compile_preconditions(&request("9"), None),
        Err(PreparationError::VersionNotSupported("9".to_string()))
    );
    assert_eq!(
        compiling_status_outcome(Err(StatusUpdateFailure::ConditionalCheckFailed)),
        Err(PreparationError::UnexpectedStatusError(
            "Concurrent status change from another instance".to_string()
        ))
    );
    let h = handle_preparation_error(&PreparationError::VersionNotSupported("9".to_string()));
    assert!(h.delete_sources && h.record_failure && h.delete_message);
    let h = handle_preparation_error(&PreparationError::S3Error("s".to_string()));
    assert!(!h.delete_sources && !h.record_failure && !h.delete_message);
    let h = handle_preparation_error(&PreparationError::NoDBItemError("i".to_string()));
    assert!(!h.delete_sources && !h.record_failure && h.delete_message);
    let input = compilation_input("abc", request("1.4.1").config, vec![]);
    assert_eq!(input.workspace_path, "hardhat_env/workspaces/abc");
}

#[test]
fn artifact_descriptions_and_records() {
    let data = vec![
        ArtifactData { file_path: "a.json".to_string(), is_contract: true },
        ArtifactData { file_path: "b.dbg.json".to_string(), is_contract: false },
    ];
    let pairs = generate_artifact_pairs(&data, vec!["u1".to_string(), "u2".to_string()]);
    assert_eq!(
        pairs,
        vec![
            ArtifactInfo {
                artifact_type: ArtifactType::Contract,
                file_path: "a.json".to_string(),
                presigned_url: "u1".to_string()
            },
            ArtifactInfo {
                artifact_type: ArtifactType::Unknown,
                file_path: "b.dbg.json".to_string(),
                presigned_url: "u2".to_string()
            },
        ]
    );
    let (recorded, returned) = record_compiled_output(Ok(pairs.clone()));
    assert_eq!(recorded, TaskResult::Success(TaskSuccess::Compile { artifacts_info: pairs.clone() }));
    assert_eq!(returned, Ok(pairs));
    let (recorded, returned) = record_compiled_output(Err("upload failed".to_string()));
    assert_eq!(
        recorded,
        TaskResult::Failure(TaskFailure {
            error_type: ServerError::InternalError,
            message: "upload failed".to_string()
        })
    );
    assert_eq!(returned, Err(CompileProcessorError::UnknownError("upload failed".to_string())));
}

#[test]
fn table_requests() {
    let r = status_update_request("id", &Status::Pending, &Status::InProgress);
    assert_eq!(r.update_expression, "SET #status = :toStatus");
    assert_eq!(r.condition_expression, Some("#status = :fromStatus".to_string()));
    assert_eq!(
        r.values,
        vec![
            (":toStatus".to_string(), AttributeValue::N("1".to_string())),
            (":fromStatus".to_string(), AttributeValue::N("0".to_string()))
        ]
    );
    let retried = retried_status_update_request("id", &Status::Pending, &Status::InProgress);
    assert_eq!(retried.values[0].1, AttributeValue::N("0".to_string()));
    let (u, urls) = compilation_success_update("id", vec![]);
    assert_eq!(urls, vec!["".to_string()]);
    assert_eq!(u.values[0].1, AttributeValue::N("2".to_string()));
    assert_eq!(u.values[1].1, AttributeValue::Ss(vec!["".to_string()]));
    assert_eq!(u.names[1], ("#data".to_string(), "Data".to_string()));
    let f = compilation_failure_update("id", "oops");
    assert_eq!(f.values[0].1, AttributeValue::N("3".to_string()));
    assert_eq!(f.values[1].1, AttributeValue::S("oops".to_string()));
    let s = scan_prior_to_request("2024-01-01T00:00:00+00:00");
    assert_eq!(s.filter_expression, "CreatedAt <= :created_at");
    assert_eq!(s.limit, 100);
}

#[test]
fn file_store_decisions() {
    assert_eq!(next_listing_token(Some(true), Some("t".to_string())), Some("t".to_string()));
    assert_eq!(next_listing_token(Some(false), Some("t".to_string())), None);
    assert_eq!(next_listing_token(None, Some("t".to_string())), None);
    assert_eq!(next_listing_token(Some(true), None), None);
    assert_eq!(listed_object(Some("k".to_string()), Some(3)), Ok(("k".to_string(), 3)));
    assert_eq!(listed_object(None, Some(3)), Err(ObjectProblem::InvalidObject));
    assert!(read_size_matches(3, 3));
    assert!(!read_size_matches(3, -1));
    assert_eq!(
        delete_dir_plan("d/", vec![Some("d/a".to_string()), Some("d/b".to_string())]),
        (vec!["d/a".to_string(), "d/b".to_string(), "d/".to_string()], true)
    );
    assert_eq!(
        delete_dir_plan("d/", vec![Some("d/a".to_string()), None, Some("d/c".to_string())]),
        (vec!["d/a".to_string()], false)
    );
}

#[test]
fn purge_takes_the_due_prefix_and_keeps_the_rest() {
    let ok = |m: &str| TaskResult::Failure(TaskFailure {
        error_type: ServerError::CompilationError,
        message: m.to_string(),
    });
    let mut state = State::new();
    state.add_record(1, ok("a"), 1000);
    state.add_record(2, ok("b"), 1000);
    state.add_record(3, ok("c"), 2000);
    let t1 = uuid::Uuid::from_u128(1).to_string();
    let t2 = uuid::Uuid::from_u128(2).to_string();
    assert_eq!(
        state.purge_plan(1300),
        vec![
            PurgeAction::DeleteDir(format!("artifacts/{}/", t1)),
            PurgeAction::DeleteItem(t1.clone()),
            PurgeAction::DeleteDir(format!("artifacts/{}/", t2)),
            PurgeAction::DeleteItem(t2.clone()),
        ]
    );
    state.retain_unexpired(1300);
    assert!(state.status_of(1).is_none());
    assert!(state.status_of(2).is_none());
    assert_eq!(state.status_of(3), Some(&Status::Done(ok("c"))));
    assert!(state.purge_plan(1300).is_empty());
    assert_eq!(state.purge_plan(2300).len(), 2);
}

#[test]
fn artifact_pairs_stop_at_the_shorter_list() {
    let data = vec![
        ArtifactData { file_path: "a.json".to_string(), is_contract: true },
        ArtifactData { file_path: "b.dbg.json".to_string(), is_contract: false },
    ];
    let pairs = generate_artifact_pairs(&data, vec!["u1".to_string()]);
    assert_eq!(
        pairs,
        vec![ArtifactInfo {
            artifact_type: ArtifactType::Contract,
            file_path: "a.json".to_string(),
            presigned_url: "u1".to_string()
        }]
    );
    let pairs = generate_artifact_pairs(
        &data[..1].to_vec(),
        vec!["u1".to_string(), "u2".to_string(), "u3".to_string()],
    );
    assert_eq!(pairs.len(), 1);
    assert_eq!(pairs[0].presigned_url, "u1");
    assert!(generate_artifact_pairs(&data, vec![]).is_empty());
}

fn finish(a: CompileAction) -> (bool, bool, Option<TaskResult>, Result<Vec<ArtifactInfo>, CompileProcessorError>) {
    match a {
        CompileAction::Finish { delete_sources, delete_message, record, result } => {
            (delete_sources, delete_message, record, result)
        }
        other => panic!("expected a finish, got {:?}", other),
    }
}

#[test]
fn compile_steps_follow_each_event() {
    let good = request("1.4.1");
    assert!(matches!(compile_step(&good, CompileEvent::Received), CompileAction::FetchSources));
    assert_eq!(
        finish(compile_step(&request("0.0.1"), CompileEvent::Received)),
        (true, true, None, Err(CompileProcessorError::VersionNotSupportedError("0.0.1".to_string())))
    );
    assert!(matches!(compile_step(&good, CompileEvent::Fetched(Ok(()))), CompileAction::RunCompiler));
    assert_eq!(
        finish(compile_step(&good, CompileEvent::Fetched(Err("s3 down".to_string())))),
        (false, true, None, Err(CompileProcessorError::UnknownError("s3 down".to_string())))
    );
    assert!(matches!(compile_step(&good, CompileEvent::Compiled(Ok(()))), CompileAction::UploadArtifacts));
    assert_eq!(
        finish(compile_step(&good, CompileEvent::Compiled(Err(CompilationError::NothingToCompileError)))),
        (false, false, None, Err(CompileProcessorError::CompilationError(CompilationError::NothingToCompileError)))
    );
    assert!(matches!(compile_step(&good, CompileEvent::Uploaded(Ok(()))), CompileAction::CleanUpAndPresign));
    let failure = TaskResult::Failure(TaskFailure {
        error_type: ServerError::InternalError,
        message: "no upload".to_string(),
    });
    assert_eq!(
        finish(compile_step(&good, CompileEvent::Uploaded(Err("no upload".to_string())))),
        (false, false, Some(failure), Err(CompileProcessorError::UnknownError("no upload".to_string())))
    );
    let pairs = vec![ArtifactInfo {
        artifact_type: ArtifactType::Contract,
        file_path: "a.json".to_string(),
        presigned_url: "u1".to_string(),
    }];
    assert_eq!(
        finish(compile_step(&good, CompileEvent::Presigned(Ok(pairs.clone())))),
        (
            false,
            false,
            Some(TaskResult::Success(TaskSuccess::Compile { artifacts_info: pairs.clone() })),
            Ok(pairs)
        )
    );
    let (_, _, record, result) = finish(compile_step(&good, CompileEvent::Presigned(Err("no link".to_string()))));
    assert!(matches!(record, Some(TaskResult::Failure(_))));
    assert_eq!(result, Err(CompileProcessorError::UnknownError("no link".to_string())));
}

#[test]
fn connection_state_after_a_round() {
    let delivered: ActionResolution<u8, u8> = handle_action_result(Ok(Some(1)));
    assert_eq!(state_after(&delivered, ConnectionState::Reconnecting), ConnectionState::Connected);
    let failed: ActionResolution<u8, u8> = handle_action_result(Err(2));
    assert_eq!(state_after(&failed, ConnectionState::Reconnecting), ConnectionState::Reconnecting);
    assert_eq!(state_after(&failed, ConnectionState::Connected), ConnectionState::Connected);
    let kept: ActionResolution<u8, u8> = handle_action_result(Ok(None));
    assert_eq!(state_after(&kept, ConnectionState::Connected), ConnectionState::Reconnecting);
}

#[test]
fn task_ids_read_and_write_as_uuids() {
    let text = "67e55044-10b1-426f-9247-bb680e5fe0c8";
    let id = zksync_remix::ident::task_id_from_text(text).expect("a valid UUID");
    assert_eq!(id, uuid::Uuid::parse_str(text).unwrap().as_u128());
    assert_eq!(zksync_remix::ident::task_id_text(id), text);
    assert_eq!(zksync_remix::ident::task_id_text(42), "00000000-0000-0000-0000-00000000002a");
    assert!(zksync_remix::ident::task_id_from_text("task-1").is_err());
}

#[test]
fn folder_names_are_random_uuids() {
    let a = zksync_remix::ident::generate_folder_name();
    let b = zksync_remix::ident::generate_folder_name();
    assert_ne!(a, b);
    let u = uuid::Uuid::parse_str(&a).expect("a UUID").as_u128();
    assert_eq!(u & 0xF000C000000000000000, 0x40008000000000000000);
    assert_eq!(a.chars().nth(14), Some('4'));
}

#[test]
fn listing_pages_accumulate_in_order() {
    let mut listed = vec![(Some("a".to_string()), Some(1i64))];
    let next = absorb_listing_page(
        &mut listed,
        Some(vec![(Some("b".to_string()), None), (None, Some(3))]),
        Some(true),
        Some("t".to_string()),
    );
    assert_eq!(next, Some("t".to_string()));
    assert_eq!(
        listed,
        vec![(Some("a".to_string()), Some(1)), (Some("b".to_string()), None), (None, Some(3))]
    );
    assert_eq!(absorb_listing_page(&mut listed, None, Some(false), Some("u".to_string())), None);
    assert_eq!(listed.len(), 3);
}

#[test]
fn trimming_with_an_empty_pattern_keeps_the_text() {
    assert_eq!(zksync_remix::text::trim_end_matches("abcc", ""), "abcc");
    assert_eq!(zksync_remix::text::trim_end_matches("abcc", "c"), "ab");
    assert_eq!(zksync_remix::text::trim_end_matches("abab", "ab"), "");
}

#[test]
fn attribute_maps_compare_as_maps() {
    let mut a = AttributeMap::new();
    a.insert("x".to_string(), AttributeValue::S("1".to_string()));
    a.insert("y".to_string(), AttributeValue::N("2".to_string()));
    let mut b = AttributeMap::new();
    b.insert("y".to_string(), AttributeValue::N("2".to_string()));
    b.insert("x".to_string(), AttributeValue::S("1".to_string()));
    assert_eq!(a, b);
    b.insert("x".to_string(), AttributeValue::N("1".to_string()));
    assert_ne!(a, b);
    let mut c = AttributeMap::new();
    c.insert("x".to_string(), AttributeValue::S("1".to_string()));
    assert_ne!(a, c);
    assert_eq!(AttributeValue::M(a), AttributeValue::M({
        let mut d = AttributeMap::new();
        d.insert("y".to_string(), AttributeValue::N("2".to_string()));
        d.insert("x".to_string(), AttributeValue::S("1".to_string()));
        d
    }));
    assert_ne!(
        AttributeValue::Ss(vec!["a".to_string(), "b".to_string()]),
        AttributeValue::Ss(vec!["b".to_string(), "a".to_string()])
    );
}
