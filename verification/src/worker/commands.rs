//! The compile and verify commands that the worker runs in a workspace:
//! what goes into the workspace, which arguments the tools get, and what
//! their output means.
use vstd::prelude::*;

use crate::api::hardhat_config::{config_text, hardhat_config_content, DEFAULT_CONTRACTS_LOCATION};
use crate::paths::{ends_with_component, join_spec, path_ends_with, path_join, path_strip_prefix, strip_prefix};
use crate::text::{contains, has_infix, str_eq};
use crate::types::errors::ServerError;
use crate::types::task_result::{TaskFailure, TaskFailureView};
use crate::types::{CompilationConfig, VerifyConfig};
use crate::worker::layout::DEFAULT_SOLIDITY_VERSION;

verus! {

/// A file of a task: its path below the workspace, and its bytes.
#[derive(Debug)]
pub struct CompilationFile {
    pub file_path: String,
    pub file_content: Vec<u8>,
}

/// What a compilation needs: the workspace folder, the configuration and
/// the source files.
#[derive(Debug)]
pub struct CompilationInput {
    pub workspace_path: String,
    pub config: CompilationConfig,
    pub contracts: Vec<CompilationFile>,
}

/// A file the compiler produced: its path below the artifacts folder, and
/// whether it describes a contract.
#[derive(Debug, Clone, PartialEq)]
pub struct ArtifactData {
    pub file_path: String,
    pub is_contract: bool,
}

/// What a compilation produced: the artifacts folder and its files.
#[derive(Debug)]
pub struct CompilationOutput {
    pub artifacts_dir: String,
    pub artifacts_data: Vec<ArtifactData>,
}

/// What a verification needs: the workspace folder, the configuration and
/// the source files.
#[derive(Debug)]
pub struct VerificationInput {
    pub workspace_path: String,
    pub config: VerifyConfig,
    pub contracts: Vec<CompilationFile>,
}

/// Why a compilation failed. An unknown error carries the text of what
/// went wrong.
#[derive(Debug, Clone, PartialEq)]
pub enum CompilationError {
    CompilationFailureError(String),
    NothingToCompileError,
    UnknownError(String),
}

/// How a compilation error reads.
pub open spec fn compilation_error_text(e: CompilationError) -> Seq<char> {
    match e {
        CompilationError::CompilationFailureError(s) => "CompilationFailureError: "@ + s@,
        CompilationError::NothingToCompileError => "Nothing to compile"@,
        CompilationError::UnknownError(s) => "UnknownError: "@ + s@,
    }
}

impl CompilationError {
    /// How this error reads.
    pub fn to_display_string(&self) -> (r: String)
        ensures
            r@ == compilation_error_text(*self),
    {
        match self {
            CompilationError::CompilationFailureError(s) => {
                let mut r = String::from_str("CompilationFailureError: ");
                r.append(s.as_str());
                r
            },
            CompilationError::NothingToCompileError => String::from_str("Nothing to compile"),
            CompilationError::UnknownError(s) => {
                let mut r = String::from_str("UnknownError: ");
                r.append(s.as_str());
                r
            },
        }
    }
}

/// Why a verification failed. An unknown error carries the text of what
/// went wrong.
#[derive(Debug, Clone, PartialEq)]
pub enum VerificationError {
    UnknownNetworkError(String),
    VerificationFailureError(String),
    UnknownError(String),
}

/// How a verification error reads.
pub open spec fn verification_error_text(e: VerificationError) -> Seq<char> {
    match e {
        VerificationError::UnknownNetworkError(s) => "UnknownNetwork: "@ + s@,
        VerificationError::VerificationFailureError(s) => "VerificationFailureError : "@ + s@,
        VerificationError::UnknownError(s) => "UnknownError: "@ + s@,
    }
}

/// The recorded failure for a verification error: an unknown network is a
/// verification error, a failed run is recorded as an unsupported compiler
/// version, anything else as an internal error; the message is the error's
/// own text.
pub open spec fn verification_failure(e: VerificationError) -> TaskFailureView {
    match e {
        VerificationError::UnknownNetworkError(s) => TaskFailureView {
            error_type: ServerError::VerificationError,
            message: s@,
        },
        VerificationError::VerificationFailureError(s) => TaskFailureView {
            error_type: ServerError::UnsupportedCompilerVersion,
            message: s@,
        },
        VerificationError::UnknownError(s) => TaskFailureView {
            error_type: ServerError::InternalError,
            message: s@,
        },
    }
}

impl VerificationError {
    /// How this error reads.
    pub fn to_display_string(&self) -> (r: String)
        ensures
            r@ == verification_error_text(*self),
    {
        let (prefix, s) = match self {
            VerificationError::UnknownNetworkError(s) => ("UnknownNetwork: ", s),
            VerificationError::VerificationFailureError(s) => ("VerificationFailureError : ", s),
            VerificationError::UnknownError(s) => ("UnknownError: ", s),
        };
        let mut r = String::from_str(prefix);
        r.append(s.as_str());
        r
    }

    /// The failure recorded for this error.
    pub fn into_task_failure(self) -> (r: TaskFailure)
        ensures
            r@ == verification_failure(self),
    {
        match self {
            VerificationError::UnknownNetworkError(s) => TaskFailure {
                error_type: ServerError::VerificationError,
                message: s,
            },
            VerificationError::VerificationFailureError(s) => TaskFailure {
                error_type: ServerError::UnsupportedCompilerVersion,
                message: s,
            },
            VerificationError::UnknownError(s) => TaskFailure {
                error_type: ServerError::InternalError,
                message: s,
            },
        }
    }
}

/// What the compiler prints when there is nothing to compile.
pub const NOTHING_TO_COMPILE: &'static str = "Nothing to compile";

/// What a finished compiler run means: a failed run is a compilation
/// failure with the error output; a run that printed `Nothing to compile`
/// compiled nothing; any other run succeeded.
pub fn process_output(success: bool, stdout: &str, stderr: &str) -> (r: Result<(), CompilationError>)
    ensures
        !success ==> (r matches Err(CompilationError::CompilationFailureError(m)) && m@ == stderr@),
        success && has_infix(stdout@, NOTHING_TO_COMPILE@) ==> r == Err::<(), CompilationError>(
            CompilationError::NothingToCompileError,
        ),
        success && !has_infix(stdout@, NOTHING_TO_COMPILE@) ==> r is Ok,
{
    if !success {
        Err(CompilationError::CompilationFailureError(String::from_str(stderr)))
    } else if contains(stdout, NOTHING_TO_COMPILE) {
        Err(CompilationError::NothingToCompileError)
    } else {
        Ok(())
    }
}

/// The folder of the artifacts, below the workspace.
pub open spec fn artifacts_path_of(workspace: Seq<char>) -> Seq<char> {
    join_spec(workspace, "artifacts-zk"@)
}

/// The Hardhat configuration file of a workspace.
pub open spec fn hardhat_config_path_of(workspace: Seq<char>) -> Seq<char> {
    join_spec(workspace, "hardhat.config.ts"@)
}

/// Whether a source file takes part in a compilation: a file whose last
/// path component is `_test.sol` is left out.
pub open spec fn is_compiled_source(f: CompilationFile) -> bool {
    !path_ends_with(f.file_path@, "_test.sol"@)
}

/// The files that take part in a compilation, in order.
pub open spec fn compiled_sources(files: Seq<CompilationFile>) -> Seq<CompilationFile>
    decreases files.len(),
{
    if files.len() == 0 {
        Seq::empty()
    } else {
        let before = compiled_sources(files.drop_last());
        if is_compiled_source(files.last()) {
            before.push(files.last())
        } else {
            before
        }
    }
}

/// How a compilation is set up in its workspace: where the artifacts go,
/// the configuration file and its text, and the sources written.
#[derive(Debug)]
pub struct CompileWorkspace {
    pub workspace_path: String,
    pub artifacts_path: String,
    pub hardhat_config_path: String,
    pub hardhat_config_content: String,
    pub contracts: Vec<CompilationFile>,
}

/// The set-up of a compilation: the artifacts folder and the configuration
/// below the workspace; the configuration names the compiler version, the
/// default Solidity version and, where given, the sources folder; the test
/// files are left out.
pub fn prepare_compile_workspace(input: CompilationInput) -> (r: CompileWorkspace)
    ensures
        r.workspace_path@ == input.workspace_path@,
        r.artifacts_path@ == artifacts_path_of(input.workspace_path@),
        r.hardhat_config_path@ == hardhat_config_path_of(input.workspace_path@),
        r.hardhat_config_content@ == config_text(
            input.config.version@,
            DEFAULT_SOLIDITY_VERSION@,
            match input.config.target_path {
                Some(p) => p@,
                None => DEFAULT_CONTRACTS_LOCATION@,
            },
        ),
        r.contracts@ == compiled_sources(input.contracts@),
{
    let CompilationInput { workspace_path, config, contracts } = input;
    let artifacts_path = path_join(workspace_path.as_str(), "artifacts-zk");
    let hardhat_config_path = path_join(workspace_path.as_str(), "hardhat.config.ts");
    let hardhat_config_content = match &config.target_path {
        Some(p) => hardhat_config_content(config.version.as_str(), DEFAULT_SOLIDITY_VERSION, Some(p.as_str())),
        None => hardhat_config_content(config.version.as_str(), DEFAULT_SOLIDITY_VERSION, None),
    };
    let ghost all = contracts@;
    let mut rest = contracts;
    let mut kept: Vec<CompilationFile> = Vec::new();
    let ghost mut k: int = 0;
    while rest.len() > 0
        invariant
            0 <= k <= all.len(),
            rest@ == all.subrange(k, all.len() as int),
            kept@ == compiled_sources(all.subrange(0, k)),
        decreases rest@.len(),
    {
        let f = rest.remove(0);
        proof {
            assert(all.subrange(0, k + 1).drop_last() =~= all.subrange(0, k));
            assert(all.subrange(k + 1, all.len() as int) =~= all.subrange(k, all.len() as int).remove(0));
        }
        if !ends_with_component(f.file_path.as_str(), "_test.sol") {
            kept.push(f);
        }
        proof {
            k = k + 1;
        }
    }
    assert(all.subrange(0, all.len() as int) =~= all);
    CompileWorkspace {
        workspace_path,
        artifacts_path,
        hardhat_config_path,
        hardhat_config_content,
        contracts: kept,
    }
}

/// The arguments of the compiler run, started in the workspace.
pub fn compile_command_args() -> (r: Vec<String>)
    ensures
        r@.len() == 2,
        r@[0]@ == "hardhat"@,
        r@[1]@ == "compile"@,
{
    let mut r: Vec<String> = Vec::new();
    r.push(String::from_str("hardhat"));
    r.push(String::from_str("compile"));
    r
}

/// Whether an artifact describes a contract: its last path component is
/// `.json`, and not `.dbg.json`.
pub open spec fn is_contract_artifact(relative: Seq<char>) -> bool {
    !path_ends_with(relative, ".dbg.json"@) && path_ends_with(relative, ".json"@)
}

/// An artifact found at `file_path`, described by its path below the
/// artifacts folder; `None` where the file lies outside that folder.
pub fn artifact_data(artifacts_path: &str, file_path: &str) -> (r: Option<ArtifactData>)
    ensures
        match path_strip_prefix(file_path@, artifacts_path@) {
            Some(rel) => r matches Some(a) && a.file_path@ == rel && a.is_contract
                == is_contract_artifact(rel),
            None => r is None,
        },
{
    match strip_prefix(file_path, artifacts_path) {
        Some(relative) => {
            let is_contract = !ends_with_component(relative.as_str(), ".dbg.json")
                && ends_with_component(relative.as_str(), ".json");
            Some(ArtifactData { file_path: relative, is_contract })
        },
        None => None,
    }
}

/// The network name the verifier is given: `zkSyncTestnet` for sepolia,
/// `zkSyncMainnet` for any other.
pub open spec fn hardhat_network(network: Seq<char>) -> Seq<char> {
    if network == "sepolia"@ {
        "zkSyncTestnet"@
    } else {
        "zkSyncMainnet"@
    }
}

/// The contents of a list of strings.
pub open spec fn texts(v: Seq<String>) -> Seq<Seq<char>> {
    v.map_values(|s: String| s@)
}

/// The arguments of the verifier run: `hardhat verify --network <net>`,
/// then `--contract <name>` where a contract is named, then the address
/// and the constructor inputs.
pub open spec fn verify_args(
    network: Seq<char>,
    target_contract: Option<Seq<char>>,
    address: Seq<char>,
    inputs: Seq<Seq<char>>,
) -> Seq<Seq<char>> {
    seq!["hardhat"@, "verify"@, "--network"@, hardhat_network(network)] + match target_contract {
        Some(c) => seq!["--contract"@, c],
        None => Seq::empty(),
    } + seq![address] + inputs
}

/// The arguments of the verifier run for a configuration.
pub fn extract_verify_args(config: &VerifyConfig) -> (r: Vec<String>)
    ensures
        texts(r@) == verify_args(
            config.network@,
            match config.target_contract {
                Some(c) => Some(c@),
                None => None,
            },
            config.contract_address@,
            texts(config.inputs@),
        ),
{
    build_verify_args(
        config.network.as_str(),
        match &config.target_contract {
            Some(c) => Some(c.as_str()),
            None => None,
        },
        config.contract_address.as_str(),
        &config.inputs,
    )
}

/// The arguments of the verifier run.
pub fn build_verify_args(network: &str, target_contract: Option<&str>, address: &str, inputs: &Vec<String>) -> (r: Vec<
    String,
>)
    ensures
        texts(r@) == verify_args(
            network@,
            match target_contract {
                Some(c) => Some(c@),
                None => None,
            },
            address@,
            texts(inputs@),
        ),
{
    let mut args: Vec<String> = Vec::new();
    args.push(String::from_str("hardhat"));
    args.push(String::from_str("verify"));
    args.push(String::from_str("--network"));
    if str_eq(network, "sepolia") {
        args.push(String::from_str("zkSyncTestnet"));
    } else {
        args.push(String::from_str("zkSyncMainnet"));
    }
    match target_contract {
        Some(c) => {
            args.push(String::from_str("--contract"));
            args.push(String::from_str(c));
        },
        None => {},
    }
    args.push(String::from_str(address));
    let ghost head = texts(args@);
    let mut i: usize = 0;
    while i < inputs.len()
        invariant
            i <= inputs@.len(),
            texts(args@) == head + texts(inputs@).take(i as int),
        decreases inputs@.len() - i,
    {
        let ghost a0 = args@;
        args.push(inputs[i].clone());
        proof {
            assert(texts(args@) =~= texts(a0).push(inputs@[i as int]@));
            assert(texts(inputs@).take(i + 1) =~= texts(inputs@).take(i as int).push(inputs@[i as int]@));
        }
        i = i + 1;
    }
    proof {
        assert(texts(inputs@).take(inputs@.len() as int) =~= texts(inputs@));
        assert(texts(args@) =~= verify_args(
            network@,
            match target_contract {
                Some(c) => Some(c@),
                None => None,
            },
            address@,
            texts(inputs@),
        ));
    }
    args
}

/// How a verification is set up in its workspace.
#[derive(Debug)]
pub struct VerifyWorkspace {
    pub workspace_path: String,
    pub artifacts_path: String,
    pub hardhat_config_path: String,
    pub hardhat_config_content: String,
    pub args: Vec<String>,
}

/// The networks a contract can be verified on.
pub open spec fn allowed_network(n: Seq<char>) -> bool {
    n == "sepolia"@ || n == "mainnet"@
}

/// The set-up of a verification, or the error for a network that is not
/// allowed. The configuration names the compiler version and the Solidity
/// version, the default one where none is given.
pub fn prepare_verify_workspace(workspace_path: &str, config: &VerifyConfig) -> (r: Result<
    VerifyWorkspace,
    VerificationError,
>)
    ensures
        !allowed_network(config.network@) ==> (r matches Err(VerificationError::UnknownNetworkError(n))
            && n@ == config.network@),
        allowed_network(config.network@) ==> (r matches Ok(w) && {
            &&& w.workspace_path@ == workspace_path@
            &&& w.artifacts_path@ == artifacts_path_of(workspace_path@)
            &&& w.hardhat_config_path@ == hardhat_config_path_of(workspace_path@)
            &&& w.hardhat_config_content@ == config_text(
                config.zksolc_version@,
                match config.solc_version {
                    Some(v) => v@,
                    None => DEFAULT_SOLIDITY_VERSION@,
                },
                DEFAULT_CONTRACTS_LOCATION@,
            )
            &&& texts(w.args@) == verify_args(
                config.network@,
                match config.target_contract {
                    Some(c) => Some(c@),
                    None => None,
                },
                config.contract_address@,
                texts(config.inputs@),
            )
        }),
{
    if !(str_eq(config.network.as_str(), "sepolia") || str_eq(config.network.as_str(), "mainnet")) {
        return Err(VerificationError::UnknownNetworkError(config.network.clone()));
    }
    let solc_version = match &config.solc_version {
        Some(v) => v.as_str(),
        None => DEFAULT_SOLIDITY_VERSION,
    };
    Ok(VerifyWorkspace {
        workspace_path: String::from_str(workspace_path),
        artifacts_path: path_join(workspace_path, "artifacts-zk"),
        hardhat_config_path: path_join(workspace_path, "hardhat.config.ts"),
        hardhat_config_content: hardhat_config_content(config.zksolc_version.as_str(), solc_version, None),
        args: extract_verify_args(config),
    })
}

/// What a finished verifier run means: its output on success, a
/// verification failure carrying that output otherwise.
pub fn verification_outcome(success: bool, stdout: String) -> (r: Result<String, VerificationError>)
    ensures
        success ==> (r matches Ok(m) && m@ == stdout@),
        !success ==> (r matches Err(VerificationError::VerificationFailureError(m)) && m@ == stdout@),
{
    if success {
        Ok(stdout)
    } else {
        Err(VerificationError::VerificationFailureError(stdout))
    }
}

} // verus!
