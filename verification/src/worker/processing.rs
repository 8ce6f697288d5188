//! How the worker processes a task taken from the queue: which requests it
//! refuses, what it does about each failure while preparing, and what it
//! records once the compiler has run.
use vstd::prelude::*;

use crate::paths::{join_spec, path_join};
use crate::types::errors::ServerError;
use crate::types::item::{status_display, Item, Status};
use crate::types::task_result::{
    artifacts_view, ArtifactInfo, ArtifactInfoView, ArtifactType, TaskFailure, TaskFailureView,
    TaskResult, TaskSuccess,
};
use crate::types::{CompilationConfig, CompilationRequest, VerifyConfig};
use crate::worker::commands::{
    compilation_error_text, verification_failure, ArtifactData, CompilationError, CompilationFile,
    CompilationInput, VerificationError, VerificationInput,
};
use crate::worker::layout::{is_supported_version, worker_zksolc_version, SOL_ROOT};

verus! {

/// Why processing a compile task failed. An unknown error carries the text
/// of what went wrong.
#[derive(Debug, Clone, PartialEq)]
pub enum CompileProcessorError {
    VersionNotSupportedError(String),
    CompilationError(CompilationError),
    UnknownError(String),
}

/// How a compile processing error reads.
pub open spec fn compile_processor_error_text(e: CompileProcessorError) -> Seq<char> {
    match e {
        CompileProcessorError::VersionNotSupportedError(v) => "Unsupported version: "@ + v@,
        CompileProcessorError::CompilationError(c) => "CompilationError: "@ + compilation_error_text(c),
        CompileProcessorError::UnknownError(s) => "UnknownError: "@ + s@,
    }
}

/// The failure recorded for a compile processing error: nothing to compile
/// and other compilation errors, an unsupported version, or an internal
/// error.
pub open spec fn compile_processor_failure(e: CompileProcessorError) -> TaskFailureView {
    match e {
        CompileProcessorError::CompilationError(CompilationError::NothingToCompileError) => TaskFailureView {
            error_type: ServerError::NothingToCompile,
            message: "Nothing to compile"@,
        },
        CompileProcessorError::CompilationError(c) => TaskFailureView {
            error_type: ServerError::CompilationError,
            message: compilation_error_text(c),
        },
        CompileProcessorError::VersionNotSupportedError(v) => TaskFailureView {
            error_type: ServerError::UnsupportedCompilerVersion,
            message: v@,
        },
        CompileProcessorError::UnknownError(s) => TaskFailureView {
            error_type: ServerError::InternalError,
            message: s@,
        },
    }
}

impl CompileProcessorError {
    /// How this error reads.
    pub fn to_display_string(&self) -> (r: String)
        ensures
            r@ == compile_processor_error_text(*self),
    {
        match self {
            CompileProcessorError::VersionNotSupportedError(v) => {
                let mut r = String::from_str("Unsupported version: ");
                r.append(v.as_str());
                r
            },
            CompileProcessorError::CompilationError(c) => {
                let mut r = String::from_str("CompilationError: ");
                let t = c.to_display_string();
                r.append(t.as_str());
                r
            },
            CompileProcessorError::UnknownError(s) => {
                let mut r = String::from_str("UnknownError: ");
                r.append(s.as_str());
                r
            },
        }
    }

    /// The failure recorded for this error.
    pub fn into_task_failure(self) -> (r: TaskFailure)
        ensures
            r@ == compile_processor_failure(self),
    {
        match self {
            CompileProcessorError::CompilationError(CompilationError::NothingToCompileError) => TaskFailure {
                error_type: ServerError::NothingToCompile,
                message: String::from_str("Nothing to compile"),
            },
            CompileProcessorError::CompilationError(c) => TaskFailure {
                error_type: ServerError::CompilationError,
                message: c.to_display_string(),
            },
            CompileProcessorError::VersionNotSupportedError(v) => TaskFailure {
                error_type: ServerError::UnsupportedCompilerVersion,
                message: v,
            },
            CompileProcessorError::UnknownError(s) => TaskFailure {
                error_type: ServerError::InternalError,
                message: s,
            },
        }
    }
}

/// Why processing a verify task failed.
#[derive(Debug, Clone, PartialEq)]
pub enum VerifyProcessorError {
    VersionNotSupportedError(String),
    VerificationError(VerificationError),
    UnknownError(String),
}

/// The failure recorded for a verify processing error.
pub open spec fn verify_processor_failure(e: VerifyProcessorError) -> TaskFailureView {
    match e {
        VerifyProcessorError::VerificationError(v) => verification_failure(v),
        VerifyProcessorError::VersionNotSupportedError(v) => TaskFailureView {
            error_type: ServerError::UnsupportedCompilerVersion,
            message: v@,
        },
        VerifyProcessorError::UnknownError(s) => TaskFailureView {
            error_type: ServerError::InternalError,
            message: s@,
        },
    }
}

impl VerifyProcessorError {
    /// The failure recorded for this error.
    pub fn into_task_failure(self) -> (r: TaskFailure)
        ensures
            r@ == verify_processor_failure(self),
    {
        match self {
            VerifyProcessorError::VerificationError(v) => v.into_task_failure(),
            VerifyProcessorError::VersionNotSupportedError(v) => TaskFailure {
                error_type: ServerError::UnsupportedCompilerVersion,
                message: v,
            },
            VerifyProcessorError::UnknownError(s) => TaskFailure {
                error_type: ServerError::InternalError,
                message: s,
            },
        }
    }
}

/// Why a task could not be prepared for compiling. The texts are those of
/// the failing step.
#[derive(Debug, Clone, PartialEq)]
pub enum PreparationError {
    NoDBItemError(String),
    UnexpectedStatusError(String),
    VersionNotSupported(String),
    S3Error(String),
    DBError(String),
}

/// Why processing a queued message failed.
#[derive(Debug, Clone, PartialEq)]
pub enum MessageProcessorError {
    PreparationError(PreparationError),
    CommandResultHandleError(String),
    S3Error(String),
    SqsDeleteError(String),
}

/// A compile request the worker accepts: one for a compiler version it
/// supports; another is refused with that version.
pub fn validate_message(message: &CompilationRequest) -> (r: Result<(), CompileProcessorError>)
    ensures
        worker_zksolc_version(message.config.version@) ==> r is Ok,
        !worker_zksolc_version(message.config.version@) ==> (r matches Err(
            CompileProcessorError::VersionNotSupportedError(v),
        ) && v@ == message.config.version@),
{
    if is_supported_version(message.config.version.as_str()) {
        Ok(())
    } else {
        Err(CompileProcessorError::VersionNotSupportedError(message.config.version.clone()))
    }
}

/// Whether a task may be compiled: its compiler version is supported, its
/// record exists, and it is still pending. The first check that fails
/// names the error.
pub fn check_compile_preconditions(request: &CompilationRequest, item: Option<&Item>) -> (r: Result<
    (),
    PreparationError,
>)
    ensures
        !worker_zksolc_version(request.config.version@) ==> (r matches Err(
            PreparationError::VersionNotSupported(v),
        ) && v@ == request.config.version@),
        worker_zksolc_version(request.config.version@) && item is None ==> (r matches Err(
            PreparationError::NoDBItemError(id),
        ) && id@ == request.id@),
        worker_zksolc_version(request.config.version@) && item is Some && !(item->Some_0.status
            is Pending) ==> (r matches Err(PreparationError::UnexpectedStatusError(s)) && s@
            == status_display(item->Some_0.status@)),
        worker_zksolc_version(request.config.version@) && item is Some && item->Some_0.status
            is Pending ==> r is Ok,
{
    if !is_supported_version(request.config.version.as_str()) {
        return Err(PreparationError::VersionNotSupported(request.config.version.clone()));
    }
    match item {
        None => Err(PreparationError::NoDBItemError(request.id.clone())),
        Some(i) => match i.status {
            Status::Pending => Ok(()),
            _ => Err(PreparationError::UnexpectedStatusError(i.status.to_display_string())),
        },
    }
}

/// How the conditional move of a task to compiling failed: another worker
/// changed its status first, or the table refused the request.
#[derive(Debug, Clone, PartialEq)]
pub enum StatusUpdateFailure {
    ConditionalCheckFailed,
    Other(String),
}

/// What a failed move to compiling means for the preparation.
pub fn compiling_status_outcome(update: Result<(), StatusUpdateFailure>) -> (r: Result<(), PreparationError>)
    ensures
        match update {
            Ok(()) => r is Ok,
            Err(StatusUpdateFailure::ConditionalCheckFailed) => r matches Err(
                PreparationError::UnexpectedStatusError(m),
            ) && m@ == "Concurrent status change from another instance"@,
            Err(StatusUpdateFailure::Other(m)) => r matches Err(PreparationError::DBError(x)) && x@
                == m@,
        },
{
    match update {
        Ok(()) => Ok(()),
        Err(StatusUpdateFailure::ConditionalCheckFailed) => Err(
            PreparationError::UnexpectedStatusError(
                String::from_str("Concurrent status change from another instance"),
            ),
        ),
        Err(StatusUpdateFailure::Other(m)) => Err(PreparationError::DBError(m)),
    }
}

/// The workspace of a task: the task's folder below the workspaces root.
pub open spec fn task_workspace(id: Seq<char>) -> Seq<char> {
    join_spec(SOL_ROOT@, id)
}

/// The input of a task's compilation: its workspace, its configuration and
/// the files fetched for it.
pub fn compilation_input(id: &str, config: CompilationConfig, files: Vec<CompilationFile>) -> (r: CompilationInput)
    ensures
        r.workspace_path@ == task_workspace(id@),
        r.config == config,
        r.contracts == files,
{
    CompilationInput { workspace_path: path_join(SOL_ROOT, id), config, contracts: files }
}

/// The input of a task's verification: its workspace, its configuration
/// and the files fetched for it.
pub fn verification_input(id: &str, config: VerifyConfig, files: Vec<CompilationFile>) -> (r: VerificationInput)
    ensures
        r.workspace_path@ == task_workspace(id@),
        r.config == config,
        r.contracts == files,
{
    VerificationInput { workspace_path: path_join(SOL_ROOT, id), config, contracts: files }
}

/// What the worker does about a failed preparation before giving up on the
/// message.
#[derive(Debug, Clone, Copy, PartialEq, Eq, Structural)]
pub struct PreparationHandling {
    /// The task's uploaded sources are removed.
    pub delete_sources: bool,
    /// The task is recorded as failed.
    pub record_failure: bool,
    /// The message is taken off the queue.
    pub delete_message: bool,
}

/// The handling of each preparation failure: a task without a record, or
/// one that another worker took, only leaves the queue; one for an
/// unsupported version loses its sources, is recorded as failed and leaves
/// the queue; a storage or table failure leaves the message queued for
/// another try.
pub open spec fn preparation_handling(e: PreparationError) -> PreparationHandling {
    match e {
        PreparationError::NoDBItemError(_) => PreparationHandling {
            delete_sources: false,
            record_failure: false,
            delete_message: true,
        },
        PreparationError::UnexpectedStatusError(_) => PreparationHandling {
            delete_sources: false,
            record_failure: false,
            delete_message: true,
        },
        PreparationError::VersionNotSupported(_) => PreparationHandling {
            delete_sources: true,
            record_failure: true,
            delete_message: true,
        },
        PreparationError::S3Error(_) => PreparationHandling {
            delete_sources: false,
            record_failure: false,
            delete_message: false,
        },
        PreparationError::DBError(_) => PreparationHandling {
            delete_sources: false,
            record_failure: false,
            delete_message: false,
        },
    }
}

/// The handling of a preparation failure.
pub fn handle_preparation_error(e: &PreparationError) -> (r: PreparationHandling)
    ensures
        r == preparation_handling(*e),
{
    match e {
        PreparationError::NoDBItemError(_) => PreparationHandling {
            delete_sources: false,
            record_failure: false,
            delete_message: true,
        },
        PreparationError::UnexpectedStatusError(_) => PreparationHandling {
            delete_sources: false,
            record_failure: false,
            delete_message: true,
        },
        PreparationError::VersionNotSupported(_) => PreparationHandling {
            delete_sources: true,
            record_failure: true,
            delete_message: true,
        },
        PreparationError::S3Error(_) => PreparationHandling {
            delete_sources: false,
            record_failure: false,
            delete_message: false,
        },
        PreparationError::DBError(_) => PreparationHandling {
            delete_sources: false,
            record_failure: false,
            delete_message: false,
        },
    }
}

/// The kind recorded for an artifact: a contract, or of unknown kind.
pub open spec fn artifact_kind(is_contract: bool) -> ArtifactType {
    if is_contract {
        ArtifactType::Contract
    } else {
        ArtifactType::Unknown
    }
}

/// How many artifacts get a download link: as many as there are both
/// uploaded keys and artifacts.
pub open spec fn pair_count(keys: nat, artifacts: nat) -> nat {
    if keys <= artifacts {
        keys
    } else {
        artifacts
    }
}

/// The artifacts described for download: each with its kind, its path and
/// the download link of its uploaded copy, one per link.
pub open spec fn artifact_pairs_spec(data: Seq<ArtifactData>, urls: Seq<String>) -> Seq<ArtifactInfoView> {
    Seq::new(
        pair_count(urls.len(), data.len()),
        |i: int|
            ArtifactInfoView {
                artifact_type: artifact_kind(data[i].is_contract),
                file_path: data[i].file_path@,
                presigned_url: urls[i]@,
            },
    )
}

/// Describes the uploaded artifacts for download: the `i`-th link belongs
/// to the `i`-th artifact, paired up to the shorter of the two lists.
pub fn generate_artifact_pairs(artifacts: &Vec<ArtifactData>, presigned_urls: Vec<String>) -> (r: Vec<
    ArtifactInfo,
>)
    ensures
        artifacts_view(r@) == artifact_pairs_spec(artifacts@, presigned_urls@),
{
    let n: usize = if presigned_urls.len() <= artifacts.len() {
        presigned_urls.len()
    } else {
        artifacts.len()
    };
    let mut r: Vec<ArtifactInfo> = Vec::new();
    let mut i: usize = 0;
    while i < n
        invariant
            n == pair_count(presigned_urls@.len(), artifacts@.len()),
            i <= n,
            artifacts_view(r@) == artifact_pairs_spec(artifacts@, presigned_urls@).take(i as int),
        decreases n - i,
    {
        let a = &artifacts[i];
        let artifact_type = if a.is_contract {
            ArtifactType::Contract
        } else {
            ArtifactType::Unknown
        };
        let ghost r0 = r@;
        r.push(
            ArtifactInfo {
                artifact_type,
                file_path: a.file_path.clone(),
                presigned_url: presigned_urls[i].clone(),
            },
        );
        proof {
            assert(artifacts_view(r@) =~= artifacts_view(r0).push(r@[i as int]@));
            assert(artifact_pairs_spec(artifacts@, presigned_urls@).take(i + 1) =~= artifact_pairs_spec(
                artifacts@,
                presigned_urls@,
            ).take(i as int).push(r@[i as int]@));
        }
        i = i + 1;
    }
    proof {
        assert(artifact_pairs_spec(artifacts@, presigned_urls@).take(n as int) =~= artifact_pairs_spec(
            artifacts@,
            presigned_urls@,
        ));
    }
    r
}

/// A copy of a list of artifact descriptions.
pub fn copy_artifacts(v: &Vec<ArtifactInfo>) -> (r: Vec<ArtifactInfo>)
    ensures
        artifacts_view(r@) == artifacts_view(v@),
{
    let mut r: Vec<ArtifactInfo> = Vec::new();
    let mut i: usize = 0;
    while i < v.len()
        invariant
            i <= v@.len(),
            artifacts_view(r@) == artifacts_view(v@).take(i as int),
        decreases v@.len() - i,
    {
        let a = &v[i];
        let ghost r0 = r@;
        r.push(
            ArtifactInfo {
                artifact_type: a.artifact_type,
                file_path: a.file_path.clone(),
                presigned_url: a.presigned_url.clone(),
            },
        );
        proof {
            assert(artifacts_view(r@) =~= artifacts_view(r0).push(v@[i as int]@));
            assert(artifacts_view(v@).take(i + 1) =~= artifacts_view(v@).take(i as int).push(
                v@[i as int]@,
            ));
        }
        i = i + 1;
    }
    proof {
        assert(artifacts_view(v@).take(v@.len() as int) =~= artifacts_view(v@));
    }
    r
}

/// What is recorded for a compiled task, and what processing returns,
/// once its artifacts were handled: their descriptions as the result, or,
/// where handling them failed, an internal error with what went wrong.
pub fn record_compiled_output(handled: Result<Vec<ArtifactInfo>, String>) -> (r: (
    TaskResult,
    Result<Vec<ArtifactInfo>, CompileProcessorError>,
))
    ensures
        match handled {
            Ok(pairs) => {
                &&& r.0 matches TaskResult::Success(TaskSuccess::Compile { artifacts_info })
                    && artifacts_view(artifacts_info@) == artifacts_view(pairs@)
                &&& r.1 matches Ok(p) && artifacts_view(p@) == artifacts_view(pairs@)
            },
            Err(m) => {
                &&& r.0 matches TaskResult::Failure(f) && f@ == TaskFailureView {
                    error_type: ServerError::InternalError,
                    message: m@,
                }
                &&& r.1 matches Err(CompileProcessorError::UnknownError(x)) && x@ == m@
            },
        },
{
    match handled {
        Ok(pairs) => {
            let recorded = copy_artifacts(&pairs);
            (TaskResult::Success(TaskSuccess::Compile { artifacts_info: recorded }), Ok(pairs))
        },
        Err(m) => {
            let f = TaskFailure { error_type: ServerError::InternalError, message: m.clone() };
            (TaskResult::Failure(f), Err(CompileProcessorError::UnknownError(m)))
        },
    }
}

/// What happened last while processing a compile message.
#[derive(Debug)]
pub enum CompileEvent {
    /// The message was taken from the queue.
    Received,
    /// The task's sources were fetched, or fetching failed with a message.
    Fetched(Result<(), String>),
    /// The compiler ran, or failed.
    Compiled(Result<(), CompilationError>),
    /// The artifacts were uploaded, or uploading failed with a message.
    Uploaded(Result<(), String>),
    /// The download links were made and paired with the artifacts, or
    /// making them failed with a message.
    Presigned(Result<Vec<ArtifactInfo>, String>),
}

/// What the worker does next with a compile message.
#[derive(Debug)]
pub enum CompileAction {
    FetchSources,
    RunCompiler,
    UploadArtifacts,
    /// Remove the uploaded sources and the message (in the background),
    /// then make the download links.
    CleanUpAndPresign,
    /// Stop: remove the sources and the message where said, record the
    /// result in the purgatory where one is given, and return `result`.
    Finish {
        delete_sources: bool,
        delete_message: bool,
        record: Option<TaskResult>,
        result: Result<Vec<ArtifactInfo>, CompileProcessorError>,
    },
}

/// The next step of processing a compile message. A refused version stops
/// at once, removing the sources and the message. A failed fetch removes
/// the message and stops with an unknown error. A failed compiler run
/// stops with its error. A failed upload is recorded as an internal error.
/// Once uploaded, the sources and the message are removed, the links are
/// made, and the outcome is recorded and returned.
pub fn compile_step(message: &CompilationRequest, event: CompileEvent) -> (a: CompileAction)
    ensures
        match event {
            CompileEvent::Received => if worker_zksolc_version(message.config.version@) {
                a matches CompileAction::FetchSources
            } else {
                a matches CompileAction::Finish { delete_sources, delete_message, record, result }
                    && delete_sources && delete_message && record is None && (result matches Err(
                    CompileProcessorError::VersionNotSupportedError(v),
                ) && v@ == message.config.version@)
            },
            CompileEvent::Fetched(Ok(())) => a matches CompileAction::RunCompiler,
            CompileEvent::Fetched(Err(m)) => a matches CompileAction::Finish {
                delete_sources,
                delete_message,
                record,
                result,
            } && !delete_sources && delete_message && record is None && (result matches Err(
                CompileProcessorError::UnknownError(x),
            ) && x@ == m@),
            CompileEvent::Compiled(Ok(())) => a matches CompileAction::UploadArtifacts,
            CompileEvent::Compiled(Err(e)) => a matches CompileAction::Finish {
                delete_sources,
                delete_message,
                record,
                result,
            } && !delete_sources && !delete_message && record is None && result == Err::<
                Vec<ArtifactInfo>,
                CompileProcessorError,
            >(CompileProcessorError::CompilationError(e)),
            CompileEvent::Uploaded(Ok(())) => a matches CompileAction::CleanUpAndPresign,
            CompileEvent::Uploaded(Err(m)) => a matches CompileAction::Finish {
                delete_sources,
                delete_message,
                record,
                result,
            } && !delete_sources && !delete_message && (record matches Some(TaskResult::Failure(f))
                && f@ == TaskFailureView { error_type: ServerError::InternalError, message: m@ })
                && (result matches Err(CompileProcessorError::UnknownError(x)) && x@ == m@),
            CompileEvent::Presigned(Ok(pairs)) => a matches CompileAction::Finish {
                delete_sources,
                delete_message,
                record,
                result,
            } && !delete_sources && !delete_message && (record matches Some(
                TaskResult::Success(TaskSuccess::Compile { artifacts_info }),
            ) && artifacts_view(artifacts_info@) == artifacts_view(pairs@)) && (result matches Ok(
                p,
            ) && artifacts_view(p@) == artifacts_view(pairs@)),
            CompileEvent::Presigned(Err(m)) => a matches CompileAction::Finish {
                delete_sources,
                delete_message,
                record,
                result,
            } && !delete_sources && !delete_message && (record matches Some(TaskResult::Failure(f))
                && f@ == TaskFailureView { error_type: ServerError::InternalError, message: m@ })
                && (result matches Err(CompileProcessorError::UnknownError(x)) && x@ == m@),
        },
{
    match event {
        CompileEvent::Received => match validate_message(message) {
            Ok(()) => CompileAction::FetchSources,
            Err(e) => CompileAction::Finish {
                delete_sources: true,
                delete_message: true,
                record: None,
                result: Err(e),
            },
        },
        CompileEvent::Fetched(Ok(())) => CompileAction::RunCompiler,
        CompileEvent::Fetched(Err(m)) => CompileAction::Finish {
            delete_sources: false,
            delete_message: true,
            record: None,
            result: Err(CompileProcessorError::UnknownError(m)),
        },
        CompileEvent::Compiled(Ok(())) => CompileAction::UploadArtifacts,
        CompileEvent::Compiled(Err(e)) => CompileAction::Finish {
            delete_sources: false,
            delete_message: false,
            record: None,
            result: Err(CompileProcessorError::CompilationError(e)),
        },
        CompileEvent::Uploaded(Ok(())) => CompileAction::CleanUpAndPresign,
        CompileEvent::Uploaded(Err(m)) => {
            let (record, result) = record_compiled_output(Err(m));
            CompileAction::Finish {
                delete_sources: false,
                delete_message: false,
                record: Some(record),
                result,
            }
        },
        CompileEvent::Presigned(handled) => {
            let (record, result) = record_compiled_output(handled);
            CompileAction::Finish {
                delete_sources: false,
                delete_message: false,
                record: Some(record),
                result,
            }
        },
    }
}

/// Turns a queued message into work; a plugin for a kind of message
/// implements it.
pub trait MessageDispatcher<M> {
    fn dispatch(&self, message: M) -> Result<i32, u32>;
}

/// The dispatcher of the zkSync compilation messages.
#[derive(Debug)]
pub struct ZkSyncDispatcher {}

/// Gathers what a task needs before it runs; a plugin implements it.
pub trait Preparator {
    type Message;
    type Output;

    fn prepare(&self, request: &Self::Message) -> Result<Self::Output, PreparationError>;
}

/// Runs a prepared task; a plugin implements it.
pub trait Actor {
    type Input;

    fn act(&self, input: Self::Input) -> Result<(), ()>;
}

/// Processes one kind of compile message to its result; a plugin
/// implements it.
pub trait CompileMessageProcessor {
    type Message;

    fn process_message(&self, message: Self::Message) -> Result<TaskResult, CompileProcessorError>;
}

/// What becomes of the queue message after a failed preparation: it stays
/// queued only when the storage or the tasks table failed, which a later
/// delivery may get past; a task without a record, a task that is no longer
/// pending and an unsupported version all take it off the queue. The
/// sources are removed, and the failure recorded, only for an unsupported
/// version.
pub proof fn lemma_preparation_handling(e: PreparationError)
    ensures
        !preparation_handling(e).delete_message <==> (e is S3Error || e is DBError),
        preparation_handling(e).delete_sources <==> e is VersionNotSupported,
        preparation_handling(e).record_failure <==> e is VersionNotSupported,
{
}

} // verus!
