//! The request and task records shared by the services.
use vstd::prelude::*;

pub mod errors;
pub mod task_result;
pub mod item;

verus! {

/// The folder under which compiled artifacts are stored.
pub const ARTIFACTS_FOLDER: &'static str = "artifacts";

/// How to compile: the compiler version, extra libraries, and an optional
/// folder of sources.
#[derive(Debug, Clone, PartialEq)]
pub struct CompilationConfig {
    pub version: String,
    pub user_libraries: Vec<String>,
    pub target_path: Option<String>,
}

/// A request to compile the files uploaded under `id`.
#[derive(Debug, Clone, PartialEq)]
pub struct CompilationRequest {
    pub id: String,
    pub config: CompilationConfig,
}

/// How to verify a deployed contract.
#[derive(Debug, Clone, PartialEq)]
pub struct VerifyConfig {
    pub zksolc_version: String,
    pub solc_version: Option<String>,
    pub network: String,
    pub contract_address: String,
    pub inputs: Vec<String>,
    /// The contract to verify, as `path/Some.sol:ContractName`.
    pub target_contract: Option<String>,
}

/// A request to verify the contract whose sources were uploaded under `id`.
#[derive(Debug, Clone, PartialEq)]
pub struct VerificationRequest {
    pub id: String,
    pub config: VerifyConfig,
}

/// A message on the task queue.
#[derive(Debug, Clone, PartialEq)]
pub enum SqsMessage {
    Compile { request: CompilationRequest },
    Verify { request: VerificationRequest },
}

} // verus!
