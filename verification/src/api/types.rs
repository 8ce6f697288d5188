//! Requests, responses and commands of the compilation API.
use vstd::prelude::*;

verus! {

/// A file: compiler output when returned, a source when sent.
#[derive(Debug, Clone, PartialEq)]
pub struct CompiledFile {
    pub file_name: String,
    pub file_content: String,
    pub is_contract: bool,
}

/// A source file sent for compilation.
#[derive(Debug, Clone, PartialEq)]
pub struct SolFile {
    pub file_name: String,
    pub file_content: String,
}

/// A request to compile several source files.
#[derive(Debug, Clone, PartialEq)]
pub struct MultifileCompilationRequest {
    pub contracts: Vec<SolFile>,
}

/// The answer to a compile request.
#[derive(Debug, Clone, PartialEq)]
pub struct CompileResponse {
    pub status: String,
    pub message: String,
    pub file_content: Vec<CompiledFile>,
}

/// The answer to a verify request.
#[derive(Debug, Clone, PartialEq)]
pub struct VerifyResponse {
    pub status: String,
    pub message: String,
}

/// How to compile: the compiler version and extra libraries.
#[derive(Debug, Clone, PartialEq)]
pub struct CompilationConfig {
    pub version: String,
    pub user_libraries: Vec<String>,
}

/// A request to compile the given sources.
#[derive(Debug, Clone, PartialEq)]
pub struct CompilationRequest {
    pub config: CompilationConfig,
    pub contracts: Vec<CompiledFile>,
    pub target_path: Option<String>,
}

/// How to verify a deployed contract.
#[derive(Debug, Clone, PartialEq)]
pub struct VerifyConfig {
    pub zksolc_version: String,
    pub solc_version: Option<String>,
    pub network: String,
    pub contract_address: String,
    pub inputs: Vec<String>,
}

/// A request to verify a deployed contract against the given sources.
#[derive(Debug, Clone, PartialEq)]
pub struct VerificationRequest {
    pub config: VerifyConfig,
    pub contracts: Vec<CompiledFile>,
    /// In format: `path/Some.sol:ContractName`.
    pub target_contract: Option<String>,
}

/// A command handed to the worker threads.
#[derive(Debug, Clone, PartialEq)]
pub enum ApiCommand {
    CompilerVersion,
    Compile(CompilationRequest),
    Verify(VerificationRequest),
    Shutdown,
}

/// What a worker thread produced for a command.
#[derive(Debug, Clone, PartialEq)]
pub enum ApiCommandResult {
    CompilerVersion(String),
    Compile(CompileResponse),
    Verify(VerifyResponse),
    Shutdown,
}

/// Why a request could not be served. The texts are those of the failing
/// operation.
#[derive(Debug, Clone, PartialEq)]
pub enum ApiError {
    VersionNotSupported(String),
    UnknownNetwork(String),
    FileExtensionNotSupported(String),
    FailedToParseString,
    FailedToWriteFile(String),
    FailedToExecuteCommand(String),
    FailedToReadOutput(String),
    FailedToReadFile(String),
    FailedToSaveFile(String),
}

/// The outcome of a health check: fine, or failed with a reason.
#[derive(Debug, PartialEq)]
pub struct HealthCheckResponse(pub Result<(), &'static str>);

impl HealthCheckResponse {
    /// A passed health check.
    pub fn ok() -> (r: HealthCheckResponse)
        ensures
            r.0 is Ok,
    {
        HealthCheckResponse(Ok(()))
    }

    /// A failed health check.
    pub fn error(value: &'static str) -> (r: HealthCheckResponse)
        ensures
            r.0 matches Err(e) && e@ == value@,
    {
        HealthCheckResponse(Err(value))
    }

    /// The HTTP status the check is answered with.
    pub fn status_code(&self) -> (r: u16)
        ensures
            r == (if self.0 is Ok {
                200u16
            } else {
                500u16
            }),
    {
        match self.0 {
            Ok(_) => 200,
            Err(_) => 500,
        }
    }

    /// The body the check is answered with.
    pub fn body(&self) -> (r: &'static str)
        ensures
            r@ == (if self.0 is Ok {
                "OK"@
            } else {
                "Internal Server Error"@
            }),
    {
        match self.0 {
            Ok(_) => "OK",
            Err(_) => "Internal Server Error",
        }
    }
}

} // verus!
