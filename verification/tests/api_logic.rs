use zksync_remix::api::handlers::{
    compile_command_result, compile_multiple_response, compile_response, compiled_file,
    do_compiler_version, extract_verify_args, failed_compile_response, health_response,
    plan_compile, plan_compile_multiple, plan_verify, request_counter, verify_command_result,
    verify_response, who_is_this, RequestCounter,
};
use zksync_remix::api::hardhat_config::{
    hardhat_config_content, HardhatConfig, HardhatConfigBuilder, ProjectPathsUserConfig,
    DEFAULT_SOLIDITY_VERSION,
};
use zksync_remix::api::types::{
    ApiCommandResult, ApiError, SolFile, VerificationRequest, VerifyConfig,
    VerifyResponse,
};
use zksync_remix::api::utils::{
    queue_size, worker_threads,
    check_file_ext, generate_mock_compile_request, get_file_ext, get_file_path,
    is_supported_zksolc_version, status_code_to_message, to_human_error, to_human_error_batch,
    try_get_file_path, Diagnostic, ErrorType, Level, Loc, Note, MOCK_SOLIDITY_FILE_CONTENT,
};

#[test]
fn test_paths_user_config_display() {
    const SOURCES: &str = "./some/folder";

    let expected = format!(r#"{{sources: "{}"}}"#, SOURCES);
    let paths = ProjectPathsUserConfig {
        sources: SOURCES.to_string(),
    };
    let actual = paths.to_display_string();

    assert_eq!(expected, actual);
}

#[test]
fn builder_sets_only_the_named_fields() {
    let mut builder = HardhatConfigBuilder::new();
    builder.zksolc_version("1.4.1").solidity_version("0.8.20");
    let config = builder.build();
    let default = HardhatConfig::new();
    assert_eq!(config.zksolc.version, "1.4.1");
    assert_eq!(config.zksolc.settings, default.zksolc.settings);
    assert_eq!(config.solidity.version, "0.8.20");
    assert_eq!(config.paths, default.paths);
    assert_eq!(config.paths.sources, "./contracts");
}

#[test]
fn config_text_names_versions_and_sources() {
    let text = hardhat_config_content("1.5.6", "0.8.24", Some("./src"));
    assert!(text.contains("version: \"1.5.6\""));
    assert!(text.contains("version: \"0.8.24\""));
    assert!(text.contains("paths: {sources: \"./src\"}"));
    let default_text = HardhatConfig::default().to_string_config();
    assert!(default_text.contains("paths: {sources: \"./contracts\"}"));
}

#[test]
fn file_extensions() {
    assert_eq!(get_file_ext("a/b/Token.sol"), "sol");
    assert_eq!(get_file_ext("archive.tar.gz"), "gz");
    assert_eq!(get_file_ext("Makefile"), "Makefile");
    assert_eq!(check_file_ext("x.sol", "sol"), Ok(()));
    assert_eq!(
        check_file_ext("x.vy", "sol"),
        Err(ApiError::FileExtensionNotSupported("vy".to_string()))
    );
}

#[test]
fn exit_code_messages() {
    assert_eq!(status_code_to_message(Some(0)), "Success");
    assert_eq!(status_code_to_message(Some(2)), "CompilationFailed");
    assert_eq!(status_code_to_message(None), "UnknownError");
}

#[test]
fn solidity_files_get_a_folder_of_their_own() {
    assert_eq!(
        get_file_path("1.4.1", "dir/Token.sol"),
        "hardhat_env/workspaces/1.4.1/dir/Token/Token.sol"
    );
    assert_eq!(
        get_file_path("1.4.1", "dir/readme.md"),
        "hardhat_env/workspaces/1.4.1/dir/readme.md"
    );
    assert_eq!(
        try_get_file_path("1.4.1", "A.sol"),
        Some("hardhat_env/workspaces/1.4.1/A/A.sol".to_string())
    );
}

#[test]
fn mock_request_compiles_simple_storage() {
    let r = generate_mock_compile_request();
    assert_eq!(r.config.version, "1.4.1");
    assert!(r.config.user_libraries.is_empty());
    assert_eq!(r.contracts.len(), 1);
    assert_eq!(r.contracts[0].file_name, "SimpleStorage.sol");
    assert_eq!(r.contracts[0].file_content, MOCK_SOLIDITY_FILE_CONTENT);
    assert!(!r.contracts[0].is_contract);
    assert_eq!(r.target_path, None);
}

#[test]
fn supported_versions() {
    assert!(is_supported_zksolc_version("1.5.6"));
    assert!(is_supported_zksolc_version("1.4.0"));
    assert!(!is_supported_zksolc_version("1.3.0"));
}

#[test]
fn diagnostics_for_people() {
    let d = Diagnostic {
        loc: Loc::File(0, 12, 20),
        level: Level::Error,
        ty: ErrorType::ParserError,
        message: "unexpected token".to_string(),
        notes: vec![
            Note { loc: Loc::Builtin, message: "first".to_string() },
            Note { loc: Loc::Builtin, message: "second".to_string() },
        ],
    };
    assert_eq!(
        to_human_error(d.clone()),
        "level: Error, loc: 12:20, ty: ParserError, message: unexpected token, notes: first\nsecond\n"
    );
    let e = Diagnostic {
        loc: Loc::Implicit,
        level: Level::Warning,
        ty: ErrorType::Unspecified,
        message: "w".to_string(),
        notes: vec![],
    };
    assert_eq!(
        to_human_error_batch(vec![d, e]),
        "level: Error, loc: 12:20, ty: ParserError, message: unexpected token, notes: first\nsecond\n\nlevel: Warning, loc: Implicit, ty: None, message: w, notes: \n"
    );
    assert_eq!(to_human_error_batch(vec![]), "");
}

#[test]
fn compile_plan_layout() {
    let p = plan_compile("1.5.6", "ns", "/cache", "image:1").expect("supported version");
    assert_eq!(p.contracts_path, "hardhat_env/workspaces//ns");
    assert_eq!(p.artifacts_path, "hardhat_env/artifacts-zk/ns");
    assert_eq!(p.user_files_path, "hardhat_env//user-ns");
    assert_eq!(p.hardhat_config_path, "hardhat_env//user-ns/hardhat.config.ts");
    assert_eq!(
        p.hardhat_config_content,
        hardhat_config_content("1.5.6", DEFAULT_SOLIDITY_VERSION, None)
    );
    assert_eq!(
        p.cleanup_dirs,
        vec![
            "hardhat_env/workspaces//ns".to_string(),
            "hardhat_env/artifacts-zk/ns".to_string(),
            "hardhat_env//user-ns".to_string()
        ]
    );
    assert_eq!(
        p.docker_args,
        vec![
            "run",
            "--rm",
            "-v",
            "hardhat_env/workspaces//ns:/app/contracts",
            "-v",
            "hardhat_env/artifacts-zk/ns:/app/artifacts-zk",
            "-v",
            "/cache:/root/.cache/hardhat-nodejs/",
            "-v",
            "hardhat_env//user-ns/hardhat.config.ts:/app/hardhat.config.ts",
            "image:1",
            "npx",
            "hardhat",
            "compile"
        ]
    );
    assert!(matches!(
        plan_compile("0.1.0", "ns", "/cache", "image:1"),
        Err(ApiError::VersionNotSupported(v)) if v == "0.1.0"
    ));
}

#[test]
fn compile_answers() {
    let failed = failed_compile_response("boom");
    assert_eq!(failed.status, "Error");
    assert_eq!(failed.message, "Failed to compile:\nboom");
    assert!(failed.file_content.is_empty());

    let f = compiled_file("arts", "arts/contracts/A.sol/A.json", "{}".to_string());
    assert_eq!(f.file_name, "contracts/A.sol/A.json");
    assert!(f.is_contract);
    let dbg = compiled_file("arts", "arts/contracts/A.sol/A.dbg.json", "{}".to_string());
    assert!(!dbg.is_contract);
    let other = compiled_file("arts", "elsewhere/build-info/x.json", "{}".to_string());
    assert_eq!(other.file_name, "elsewhere/build-info/x.json");
    assert!(!other.is_contract);

    let ok = compile_response(Some(0), "done".to_string(), vec![f.clone()]);
    assert_eq!(ok.status, "Success");
    assert_eq!(ok.message, "done");
    assert_eq!(ok.file_content, vec![f]);
}

fn verification_request(network: &str, version: &str, target: Option<&str>) -> VerificationRequest {
    VerificationRequest {
        config: VerifyConfig {
            zksolc_version: version.to_string(),
            solc_version: None,
            network: network.to_string(),
            contract_address: "0xabc".to_string(),
            inputs: vec!["1".to_string(), "two".to_string()],
        },
        contracts: vec![],
        target_contract: target.map(|t| t.to_string()),
    }
}

#[test]
fn verify_arguments() {
    let r = verification_request("sepolia", "1.5.6", Some("contracts/A.sol:A"));
    assert_eq!(
        extract_verify_args(&r),
        vec![
            "hardhat",
            "verify",
            "--network",
            "zkSyncTestnet",
            "--contract",
            "contracts/A.sol:A",
            "0xabc",
            "1",
            "two"
        ]
    );
    let r = verification_request("mainnet", "1.5.6", None);
    assert_eq!(
        extract_verify_args(&r),
        vec!["hardhat", "verify", "--network", "zkSyncMainnet", "0xabc", "1", "two"]
    );
}

#[test]
fn verify_plan_checks_version_then_network() {
    let p = plan_verify(&verification_request("mainnet", "1.4.1", None), "ns").expect("accepted");
    assert_eq!(p.workspace_path, "hardhat_env/workspaces//ns");
    assert_eq!(p.artifacts_path, "hardhat_env/workspaces//ns/artifacts-zk");
    assert_eq!(p.hardhat_config_path, "hardhat_env/workspaces//ns/hardhat.config.ts");
    assert_eq!(p.cleanup_dirs, vec!["hardhat_env/workspaces//ns".to_string()]);
    assert!(matches!(
        plan_verify(&verification_request("goerli", "9.9.9", None), "ns"),
        Err(ApiError::VersionNotSupported(v)) if v == "9.9.9"
    ));
    assert!(matches!(
        plan_verify(&verification_request("goerli", "1.4.1", None), "ns"),
        Err(ApiError::UnknownNetwork(n)) if n == "goerli"
    ));
}

#[test]
fn verify_answers() {
    let ok = verify_response(true, "verified".to_string(), "".to_string());
    assert_eq!(ok, VerifyResponse { status: "Success".to_string(), message: "verified".to_string() });
    let err = verify_response(false, "out".to_string(), "bad".to_string());
    assert_eq!(err, VerifyResponse { status: "Error".to_string(), message: "bad".to_string() });
}

#[test]
fn command_results_and_failures() {
    let resp = compile_multiple_response();
    let (r, failed) = compile_command_result(Ok(resp.clone()));
    assert_eq!(r, Ok(ApiCommandResult::Compile(resp)));
    assert!(!failed);
    let (r, failed) = verify_command_result(Err(ApiError::UnknownNetwork("x".to_string())));
    assert_eq!(r, Err(ApiError::UnknownNetwork("x".to_string())));
    assert!(failed);
    let (r, _) = compile_command_result(Err(ApiError::FailedToParseString));
    assert!(matches!(r, Err(ApiError::FailedToParseString)));
}

#[test]
fn small_answers() {
    assert_eq!(who_is_this(), "Who are you?");
    assert_eq!(
        do_compiler_version("zksolc v1.5.6 (LLVM build)".to_string()),
        Ok("zksolc v1.5.6 (LLVM build)".to_string())
    );
    assert_eq!(health_response(true).status_code(), 200);
    let bad = health_response(false);
    assert_eq!(bad.status_code(), 500);
    assert_eq!(bad.0, Err("Failed to compile"));
    assert_eq!(request_counter("/compile"), RequestCounter::Compilations);
    assert_eq!(request_counter("/compile-async"), RequestCounter::Compilations);
    assert_eq!(request_counter("/on-plugin-launched"), RequestCounter::PluginLaunches);
    assert_eq!(request_counter("/verify"), RequestCounter::Uncounted);
}

#[test]
fn multifile_plan() {
    let files = vec![SolFile { file_name: "a/A.sol".to_string(), file_content: "x".to_string() }];
    let p = plan_compile_multiple("1.4.0", "ns", &files).expect("supported");
    assert_eq!(p.file_paths, vec!["hardhat_env/workspaces//ns/a/A.sol".to_string()]);
    assert_eq!(p.docker_args[6], "hardhat-env:1.4.0");
    assert!(plan_compile_multiple("2.0.0", "ns", &files).is_err());
}

#[test]
fn service_settings() {
    assert_eq!(worker_threads(None), 2);
    assert_eq!(worker_threads(Some("8")), 8);
    assert_eq!(worker_threads(Some("+8")), 8);
    assert_eq!(worker_threads(Some("eight")), 2);
    assert_eq!(worker_threads(Some("4294967296")), 2);
    assert_eq!(queue_size(None), 1000);
    assert_eq!(queue_size(Some("25")), 25);
    assert_eq!(queue_size(Some("")), 1000);
    assert_eq!(queue_size(Some("-1")), 1000);
    assert_eq!(queue_size(Some("999999999999999999999999")), 1000);
}

#[test]
fn path_bytes_as_text() {
    assert_eq!(
        zksync_remix::api::utils::path_buf_to_string(b"contracts/A.sol".to_vec()),
        Ok("contracts/A.sol".to_string())
    );
    assert_eq!(
        zksync_remix::api::utils::path_buf_to_string(vec![0x66, 0xff, 0x6f]),
        Err(ApiError::FailedToParseString)
    );
}
