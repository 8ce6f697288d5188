//! The decisions of the HTTP handlers: which requests are refused, how a
//! compilation or verification workspace is laid out, which commands run
//! in it, and what is answered from their output.
use vstd::prelude::*;

use crate::api::hardhat_config::{config_text, hardhat_config_content, DEFAULT_CONTRACTS_LOCATION, DEFAULT_SOLIDITY_VERSION};
use crate::api::types::{
    ApiCommandResult, ApiError, CompileResponse, CompiledFile, HealthCheckResponse, SolFile,
    VerificationRequest, VerifyResponse,
};
use crate::api::utils::{
    allowed_network, is_allowed_network, is_supported_zksolc_version, status_code_to_message,
    status_message, supported_zksolc_version, ARTIFACTS_ROOT, HARDHAT_ENV_ROOT, SOL_ROOT,
};
use crate::ident::{generate_folder_name, is_random_uuid, uuid_text};
use crate::paths::{join_spec, path_join, path_strip_prefix, strip_prefix};
use crate::text::{ends_with, is_prefix, is_suffix, starts_with, str_eq};
use crate::worker::commands::{build_verify_args, texts, verify_args};

verus! {

/// The metric label of compile requests.
pub const COMPILATION_LABEL_VALUE: &'static str = "compilation";

/// The metric label of verify requests (the same label as compilations).
pub const VERIFICATION_LABEL_VALUE: &'static str = "compilation";

/// How many compiler or verifier processes run at once.
pub const PROCESS_SPAWN_LIMIT: usize = 8;

/// The answer to `GET /`.
pub fn who_is_this() -> (r: &'static str)
    ensures
        r@ == "Who are you?"@,
{
    "Who are you?"
}

/// The compiler version the service reports: what `zksolc --version`
/// printed, given as `printed`.
pub fn do_compiler_version(printed: String) -> (r: Result<String, ApiError>)
    ensures
        r matches Ok(v) && v@ == printed@,
{
    Ok(printed)
}

/// A folder named `name` below `root`, written as `<root>/<name>`.
pub open spec fn folder_under(root: Seq<char>, name: Seq<char>) -> Seq<char> {
    root + "/"@ + name
}

fn folder_under_exec(root: &str, name: &str) -> (r: String)
    ensures
        r@ == folder_under(root@, name@),
{
    let mut s = String::from_str(root);
    s.append("/");
    s.append(name);
    s
}

/// A volume mount of the container: `<host>:<inside>`.
pub open spec fn mount(host: Seq<char>, inside: Seq<char>) -> Seq<char> {
    host + ":"@ + inside
}

fn mount_exec(host: &str, inside: &str) -> (r: String)
    ensures
        r@ == mount(host@, inside@),
{
    let mut s = String::from_str(host);
    s.append(":");
    s.append(inside);
    s
}

/// The arguments of the container run that compiles a workspace: the
/// sources, artifacts, cache and configuration mounted, then the image and
/// the compile command.
pub open spec fn compile_docker_args(
    contracts: Seq<char>,
    artifacts: Seq<char>,
    cache: Seq<char>,
    user_files: Seq<char>,
    image: Seq<char>,
) -> Seq<Seq<char>> {
    seq![
        "run"@,
        "--rm"@,
        "-v"@,
        mount(contracts, "/app/contracts"@),
        "-v"@,
        mount(artifacts, "/app/artifacts-zk"@),
        "-v"@,
        mount(cache, "/root/.cache/hardhat-nodejs/"@),
        "-v"@,
        mount(user_files + "/hardhat.config.ts"@, "/app/hardhat.config.ts"@),
        image,
        "npx"@,
        "hardhat"@,
        "compile"@,
    ]
}

/// The layout of a compilation: the sources, artifacts and configuration
/// folders of its namespace, the configuration file and its text, the
/// folders removed afterwards, and the arguments of the container run.
#[derive(Debug)]
pub struct CompilePlan {
    pub contracts_path: String,
    pub artifacts_path: String,
    pub user_files_path: String,
    pub hardhat_config_path: String,
    pub hardhat_config_content: String,
    pub cleanup_dirs: Vec<String>,
    pub docker_args: Vec<String>,
}

/// The layout of a compilation for namespace `ns`.
pub open spec fn compile_plan_matches(
    p: CompilePlan,
    version: Seq<char>,
    ns: Seq<char>,
    cache: Seq<char>,
    image: Seq<char>,
) -> bool {
    let contracts = folder_under(SOL_ROOT@, ns);
    let artifacts = folder_under(ARTIFACTS_ROOT@, ns);
    let user_files = HARDHAT_ENV_ROOT@ + "/user-"@ + ns;
    &&& p.contracts_path@ == contracts
    &&& p.artifacts_path@ == artifacts
    &&& p.user_files_path@ == user_files
    &&& p.hardhat_config_path@ == join_spec(user_files, "hardhat.config.ts"@)
    &&& p.hardhat_config_content@ == config_text(
        version,
        DEFAULT_SOLIDITY_VERSION@,
        DEFAULT_CONTRACTS_LOCATION@,
    )
    &&& texts(p.cleanup_dirs@) == seq![contracts, artifacts, user_files]
    &&& texts(p.docker_args@) == compile_docker_args(contracts, artifacts, cache, user_files, image)
}

/// Lays out the compilation of a request for compiler `version` in
/// namespace `ns`, the container mounting the cache `cache_path` and
/// running `image`; a version the service does not support is refused.
pub fn plan_compile(version: &str, ns: &str, cache_path: &str, image: &str) -> (r: Result<
    CompilePlan,
    ApiError,
>)
    ensures
        !supported_zksolc_version(version@) ==> (r matches Err(ApiError::VersionNotSupported(v))
            && v@ == version@),
        supported_zksolc_version(version@) ==> (r matches Ok(p) && compile_plan_matches(
            p,
            version@,
            ns@,
            cache_path@,
            image@,
        )),
{
    if !is_supported_zksolc_version(version) {
        return Err(ApiError::VersionNotSupported(String::from_str(version)));
    }
    let contracts_path = folder_under_exec(SOL_ROOT, ns);
    let artifacts_path = folder_under_exec(ARTIFACTS_ROOT, ns);
    let mut user_files_path = String::from_str(HARDHAT_ENV_ROOT);
    user_files_path.append("/user-");
    user_files_path.append(ns);
    let hardhat_config_path = path_join(user_files_path.as_str(), "hardhat.config.ts");
    let content = hardhat_config_content(version, DEFAULT_SOLIDITY_VERSION, None);
    let mut cleanup_dirs: Vec<String> = Vec::new();
    cleanup_dirs.push(contracts_path.clone());
    cleanup_dirs.push(artifacts_path.clone());
    cleanup_dirs.push(user_files_path.clone());
    let mut config_file = user_files_path.clone();
    config_file.append("/hardhat.config.ts");
    let mut args: Vec<String> = Vec::new();
    args.push(String::from_str("run"));
    args.push(String::from_str("--rm"));
    args.push(String::from_str("-v"));
    args.push(mount_exec(contracts_path.as_str(), "/app/contracts"));
    args.push(String::from_str("-v"));
    args.push(mount_exec(artifacts_path.as_str(), "/app/artifacts-zk"));
    args.push(String::from_str("-v"));
    args.push(mount_exec(cache_path, "/root/.cache/hardhat-nodejs/"));
    args.push(String::from_str("-v"));
    args.push(mount_exec(config_file.as_str(), "/app/hardhat.config.ts"));
    args.push(String::from_str(image));
    args.push(String::from_str("npx"));
    args.push(String::from_str("hardhat"));
    args.push(String::from_str("compile"));
    let p = CompilePlan {
        contracts_path,
        artifacts_path,
        user_files_path,
        hardhat_config_path,
        hardhat_config_content: content,
        cleanup_dirs,
        docker_args: args,
    };
    proof {
        assert(texts(p.cleanup_dirs@) =~= seq![
            folder_under(SOL_ROOT@, ns@),
            folder_under(ARTIFACTS_ROOT@, ns@),
            HARDHAT_ENV_ROOT@ + "/user-"@ + ns@,
        ]);
        assert(texts(p.docker_args@) =~= compile_docker_args(
            folder_under(SOL_ROOT@, ns@),
            folder_under(ARTIFACTS_ROOT@, ns@),
            cache_path@,
            HARDHAT_ENV_ROOT@ + "/user-"@ + ns@,
            image@,
        ));
    }
    Ok(p)
}

/// Lays out a compilation in a fresh namespace, a random UUID.
pub fn new_compile_plan(version: &str, cache_path: &str, image: &str) -> (r: Result<CompilePlan, ApiError>)
    ensures
        !supported_zksolc_version(version@) ==> (r matches Err(ApiError::VersionNotSupported(v))
            && v@ == version@),
        supported_zksolc_version(version@) ==> (r matches Ok(p) && exists|u: u128|
            is_random_uuid(u) && compile_plan_matches(
                p,
                version@,
                #[trigger] uuid_text(u),
                cache_path@,
                image@,
            )),
{
    if !is_supported_zksolc_version(version) {
        return Err(ApiError::VersionNotSupported(String::from_str(version)));
    }
    let ns = generate_folder_name();
    plan_compile(version, ns.as_str(), cache_path, image)
}

/// The answer to a compilation whose run failed: no files, the error
/// output after `Failed to compile:`, and status `Error`.
pub fn failed_compile_response(stderr: &str) -> (r: CompileResponse)
    ensures
        r.file_content@.len() == 0,
        r.message@ == "Failed to compile:\n"@ + stderr@,
        r.status@ == "Error"@,
{
    let mut message = String::from_str("Failed to compile:\n");
    message.append(stderr);
    CompileResponse { file_content: Vec::new(), message, status: String::from_str("Error") }
}

/// The name an artifact is answered under: its path below the artifacts
/// folder, or the whole path where it lies elsewhere.
pub open spec fn artifact_name(artifacts: Seq<char>, file_path: Seq<char>) -> Seq<char> {
    match path_strip_prefix(file_path, artifacts) {
        Some(rel) => rel,
        None => file_path,
    }
}

/// Whether an answered artifact describes a contract: its name starts with
/// `contracts` and ends with `.json` but not `.dbg.json`.
pub open spec fn is_contract_file(name: Seq<char>) -> bool {
    is_prefix(name, "contracts"@) && !is_suffix(name, ".dbg.json"@) && is_suffix(name, ".json"@)
}

/// An artifact read from `file_path`, answered with its name below the
/// artifacts folder and its content.
pub fn compiled_file(artifacts_path: &str, file_path: &str, content: String) -> (r: CompiledFile)
    ensures
        r.file_name@ == artifact_name(artifacts_path@, file_path@),
        r.file_content == content,
        r.is_contract == is_contract_file(artifact_name(artifacts_path@, file_path@)),
{
    let name = match strip_prefix(file_path, artifacts_path) {
        Some(rel) => rel,
        None => String::from_str(file_path),
    };
    let is_contract = starts_with(name.as_str(), "contracts") && !ends_with(name.as_str(), ".dbg.json")
        && ends_with(name.as_str(), ".json");
    CompiledFile { file_name: name, file_content: content, is_contract }
}

/// The answer to a compilation that ran: the artifacts, the message for
/// the exit code as status, and the compiler's output as message.
pub fn compile_response(code: Option<i32>, stdout: String, files: Vec<CompiledFile>) -> (r: CompileResponse)
    ensures
        r.file_content == files,
        r.status@ == status_message(code),
        r.message == stdout,
{
    CompileResponse { file_content: files, status: status_code_to_message(code), message: stdout }
}

/// The layout of a verification: the workspace of its namespace, the
/// artifacts folder in it, the configuration file and its text, the
/// folders removed afterwards, and the arguments of the verifier.
#[derive(Debug)]
pub struct VerifyPlan {
    pub workspace_path: String,
    pub artifacts_path: String,
    pub hardhat_config_path: String,
    pub hardhat_config_content: String,
    pub cleanup_dirs: Vec<String>,
    pub args: Vec<String>,
}

/// The arguments of the verifier for a request.
pub open spec fn request_verify_args(request: VerificationRequest) -> Seq<Seq<char>> {
    verify_args(
        request.config.network@,
        match request.target_contract {
            Some(c) => Some(c@),
            None => None,
        },
        request.config.contract_address@,
        texts(request.config.inputs@),
    )
}

/// The arguments of the verifier for a request: `hardhat verify --network
/// <net>`, the contract where one is named, the address and the inputs.
pub fn extract_verify_args(request: &VerificationRequest) -> (r: Vec<String>)
    ensures
        texts(r@) == request_verify_args(*request),
{
    build_verify_args(
        request.config.network.as_str(),
        match &request.target_contract {
            Some(c) => Some(c.as_str()),
            None => None,
        },
        request.config.contract_address.as_str(),
        &request.config.inputs,
    )
}

/// The layout of a verification of `request` in namespace `ns`.
pub open spec fn verify_plan_matches(p: VerifyPlan, request: VerificationRequest, ns: Seq<char>) -> bool {
    let ws = folder_under(SOL_ROOT@, ns);
    &&& p.workspace_path@ == ws
    &&& p.artifacts_path@ == folder_under(ws, "artifacts-zk"@)
    &&& p.hardhat_config_path@ == join_spec(ws, "hardhat.config.ts"@)
    &&& p.hardhat_config_content@ == config_text(
        request.config.zksolc_version@,
        match request.config.solc_version {
            Some(v) => v@,
            None => DEFAULT_SOLIDITY_VERSION@,
        },
        DEFAULT_CONTRACTS_LOCATION@,
    )
    &&& texts(p.cleanup_dirs@) == seq![ws]
    &&& texts(p.args@) == request_verify_args(request)
}

/// Lays out the verification of a request in namespace `ns`. An
/// unsupported compiler version is refused first, then a network other
/// than sepolia and mainnet. The configuration names the request's
/// Solidity version, or the default one.
pub fn plan_verify(request: &VerificationRequest, ns: &str) -> (r: Result<VerifyPlan, ApiError>)
    ensures
        !supported_zksolc_version(request.config.zksolc_version@) ==> (r matches Err(
            ApiError::VersionNotSupported(v),
        ) && v@ == request.config.zksolc_version@),
        supported_zksolc_version(request.config.zksolc_version@) && !allowed_network(
            request.config.network@,
        ) ==> (r matches Err(ApiError::UnknownNetwork(n)) && n@ == request.config.network@),
        supported_zksolc_version(request.config.zksolc_version@) && allowed_network(
            request.config.network@,
        ) ==> (r matches Ok(p) && verify_plan_matches(p, *request, ns@)),
{
    if !is_supported_zksolc_version(request.config.zksolc_version.as_str()) {
        return Err(ApiError::VersionNotSupported(request.config.zksolc_version.clone()));
    }
    if !is_allowed_network(request.config.network.as_str()) {
        return Err(ApiError::UnknownNetwork(request.config.network.clone()));
    }
    let solc_version = match &request.config.solc_version {
        Some(v) => v.as_str(),
        None => DEFAULT_SOLIDITY_VERSION,
    };
    let workspace_path = folder_under_exec(SOL_ROOT, ns);
    let artifacts_path = folder_under_exec(workspace_path.as_str(), "artifacts-zk");
    let hardhat_config_path = path_join(workspace_path.as_str(), "hardhat.config.ts");
    let content = hardhat_config_content(request.config.zksolc_version.as_str(), solc_version, None);
    let mut cleanup_dirs: Vec<String> = Vec::new();
    cleanup_dirs.push(workspace_path.clone());
    proof {
        assert(texts(cleanup_dirs@) =~= seq![folder_under(SOL_ROOT@, ns@)]);
    }
    Ok(
        VerifyPlan {
            workspace_path,
            artifacts_path,
            hardhat_config_path,
            hardhat_config_content: content,
            cleanup_dirs,
            args: extract_verify_args(request),
        },
    )
}

/// Lays out a verification in a fresh namespace, a random UUID.
pub fn new_verify_plan(request: &VerificationRequest) -> (r: Result<VerifyPlan, ApiError>)
    ensures
        !supported_zksolc_version(request.config.zksolc_version@) ==> (r matches Err(
            ApiError::VersionNotSupported(v),
        ) && v@ == request.config.zksolc_version@),
        supported_zksolc_version(request.config.zksolc_version@) && !allowed_network(
            request.config.network@,
        ) ==> (r matches Err(ApiError::UnknownNetwork(n)) && n@ == request.config.network@),
        supported_zksolc_version(request.config.zksolc_version@) && allowed_network(
            request.config.network@,
        ) ==> (r matches Ok(p) && exists|u: u128|
            is_random_uuid(u) && verify_plan_matches(p, *request, #[trigger] uuid_text(u))),
{
    if !is_supported_zksolc_version(request.config.zksolc_version.as_str()) {
        return Err(ApiError::VersionNotSupported(request.config.zksolc_version.clone()));
    }
    if !is_allowed_network(request.config.network.as_str()) {
        return Err(ApiError::UnknownNetwork(request.config.network.clone()));
    }
    let ns = generate_folder_name();
    plan_verify(request, ns.as_str())
}

/// The answer to a verification that ran: `Success` with the verifier's
/// output, or `Error` with its error output.
pub fn verify_response(success: bool, stdout: String, stderr: String) -> (r: VerifyResponse)
    ensures
        success ==> r.status@ == "Success"@ && r.message == stdout,
        !success ==> r.status@ == "Error"@ && r.message == stderr,
{
    if success {
        VerifyResponse { status: String::from_str("Success"), message: stdout }
    } else {
        VerifyResponse { status: String::from_str("Error"), message: stderr }
    }
}

/// The result of a compile command handed to a worker thread, and whether
/// it counts as a failure.
pub fn compile_command_result(r: Result<CompileResponse, ApiError>) -> (out: (
    Result<ApiCommandResult, ApiError>,
    bool,
))
    ensures
        match r {
            Ok(c) => out.0 == Ok::<ApiCommandResult, ApiError>(ApiCommandResult::Compile(c)) && !out.1,
            Err(e) => out.0 == Err::<ApiCommandResult, ApiError>(e) && out.1,
        },
{
    match r {
        Ok(c) => (Ok(ApiCommandResult::Compile(c)), false),
        Err(e) => (Err(e), true),
    }
}

/// The result of a verify command handed to a worker thread, and whether
/// it counts as a failure.
pub fn verify_command_result(r: Result<VerifyResponse, ApiError>) -> (out: (
    Result<ApiCommandResult, ApiError>,
    bool,
))
    ensures
        match r {
            Ok(v) => out.0 == Ok::<ApiCommandResult, ApiError>(ApiCommandResult::Verify(v)) && !out.1,
            Err(e) => out.0 == Err::<ApiCommandResult, ApiError>(e) && out.1,
        },
{
    match r {
        Ok(v) => (Ok(ApiCommandResult::Verify(v)), false),
        Err(e) => (Err(e), true),
    }
}

/// The answer of the health check: fine when the sample compilation went
/// through, `Failed to compile` otherwise.
pub fn health_response(compiled: bool) -> (r: HealthCheckResponse)
    ensures
        compiled ==> r.0 is Ok,
        !compiled ==> (r.0 matches Err(m) && m@ == "Failed to compile"@),
{
    if compiled {
        HealthCheckResponse::ok()
    } else {
        HealthCheckResponse::error("Failed to compile")
    }
}

/// The counter a request is counted in.
#[derive(Debug, Clone, Copy, PartialEq, Eq, Structural)]
pub enum RequestCounter {
    Compilations,
    PluginLaunches,
    Uncounted,
}

/// Which counter a request path is counted in: compile requests, plugin
/// launches, or none.
pub fn request_counter(path: &str) -> (r: RequestCounter)
    ensures
        r == (if path@ == "/compile"@ || path@ == "/compile-async"@ {
            RequestCounter::Compilations
        } else if path@ == "/on-plugin-launched"@ {
            RequestCounter::PluginLaunches
        } else {
            RequestCounter::Uncounted
        }),
{
    if str_eq(path, "/compile") || str_eq(path, "/compile-async") {
        RequestCounter::Compilations
    } else if str_eq(path, "/on-plugin-launched") {
        RequestCounter::PluginLaunches
    } else {
        RequestCounter::Uncounted
    }
}

/// The layout of a compilation of several files: the sources and
/// artifacts folders, where each file is written, the folders removed
/// afterwards, and the arguments of the container run.
#[derive(Debug)]
pub struct MultifilePlan {
    pub contracts_path: String,
    pub artifacts_path: String,
    pub file_paths: Vec<String>,
    pub cleanup_dirs: Vec<String>,
    pub docker_args: Vec<String>,
}

/// The arguments of the container run that compiles several files with the
/// image of compiler `version`.
pub open spec fn multifile_docker_args(contracts: Seq<char>, artifacts: Seq<char>, version: Seq<char>) -> Seq<
    Seq<char>,
> {
    seq![
        "run"@,
        "--rm"@,
        "-v"@,
        mount(contracts, "/app/contracts"@),
        "-v"@,
        mount(artifacts, "/app/artifacts-zk"@),
        "hardhat-env:"@ + version,
        "npx"@,
        "hardhat"@,
        "compile"@,
    ]
}

/// Lays out the compilation of several files with compiler `version` in
/// namespace `ns`; each file is written below the sources folder under its
/// name. A version the service does not support is refused.
pub fn plan_compile_multiple(version: &str, ns: &str, files: &Vec<SolFile>) -> (r: Result<
    MultifilePlan,
    ApiError,
>)
    ensures
        !supported_zksolc_version(version@) ==> (r matches Err(ApiError::VersionNotSupported(v))
            && v@ == version@),
        supported_zksolc_version(version@) ==> (r matches Ok(p) && {
            let contracts = folder_under(SOL_ROOT@, ns@);
            let artifacts = folder_under(ARTIFACTS_ROOT@, ns@);
            &&& p.contracts_path@ == contracts
            &&& p.artifacts_path@ == artifacts
            &&& p.file_paths@.len() == files@.len()
            &&& forall|i: int|
                0 <= i < files@.len() ==> #[trigger] p.file_paths@[i]@ == folder_under(
                    contracts,
                    files@[i].file_name@,
                )
            &&& texts(p.cleanup_dirs@) == seq![contracts, artifacts]
            &&& texts(p.docker_args@) == multifile_docker_args(contracts, artifacts, version@)
        }),
{
    if !is_supported_zksolc_version(version) {
        return Err(ApiError::VersionNotSupported(String::from_str(version)));
    }
    let contracts_path = folder_under_exec(SOL_ROOT, ns);
    let artifacts_path = folder_under_exec(ARTIFACTS_ROOT, ns);
    let mut file_paths: Vec<String> = Vec::new();
    let mut i: usize = 0;
    while i < files.len()
        invariant
            i <= files@.len(),
            file_paths@.len() == i,
            forall|j: int|
                0 <= j < i ==> #[trigger] file_paths@[j]@ == folder_under(
                    contracts_path@,
                    files@[j].file_name@,
                ),
        decreases files@.len() - i,
    {
        file_paths.push(folder_under_exec(contracts_path.as_str(), files[i].file_name.as_str()));
        i = i + 1;
    }
    let mut cleanup_dirs: Vec<String> = Vec::new();
    cleanup_dirs.push(contracts_path.clone());
    cleanup_dirs.push(artifacts_path.clone());
    let mut image = String::from_str("hardhat-env:");
    image.append(version);
    let mut args: Vec<String> = Vec::new();
    args.push(String::from_str("run"));
    args.push(String::from_str("--rm"));
    args.push(String::from_str("-v"));
    args.push(mount_exec(contracts_path.as_str(), "/app/contracts"));
    args.push(String::from_str("-v"));
    args.push(mount_exec(artifacts_path.as_str(), "/app/artifacts-zk"));
    args.push(image);
    args.push(String::from_str("npx"));
    args.push(String::from_str("hardhat"));
    args.push(String::from_str("compile"));
    let p = MultifilePlan { contracts_path, artifacts_path, file_paths, cleanup_dirs, docker_args: args };
    proof {
        assert(texts(p.cleanup_dirs@) =~= seq![
            folder_under(SOL_ROOT@, ns@),
            folder_under(ARTIFACTS_ROOT@, ns@),
        ]);
        assert(texts(p.docker_args@) =~= multifile_docker_args(
            folder_under(SOL_ROOT@, ns@),
            folder_under(ARTIFACTS_ROOT@, ns@),
            version@,
        ));
    }
    Ok(p)
}

/// The answer once a compilation of several files ran: no files, status
/// and message `Success`.
pub fn compile_multiple_response() -> (r: CompileResponse)
    ensures
        r.file_content@.len() == 0,
        r.message@ == "Success"@,
        r.status@ == "Success"@,
{
    CompileResponse {
        file_content: Vec::new(),
        message: String::from_str("Success"),
        status: String::from_str("Success"),
    }
}

/// The folders a finished request removes, in order.
#[derive(Debug)]
pub struct AutoCleanUp {
    pub dirs: Vec<String>,
}

} // verus!
