//! Where the worker keeps things: the workspace folders, the storage keys of
//! a task's files and artifacts, and the compiler versions it accepts.
use vstd::prelude::*;

use crate::api::utils::{file_path_spec, file_path_under, sol_path_has_parts, status_message};
use crate::paths::{file_name, parent, path_join};
use crate::text::{after_last, str_eq};
use crate::types::ARTIFACTS_FOLDER;

verus! {

/// The folder, below the worker's directory, that holds the workspaces.
pub const SOL_ROOT: &'static str = "hardhat_env/workspaces/";

/// The folder, below the worker's directory, that holds the zksolc cache.
pub const ZK_CACHE_ROOT: &'static str = "hardhat_env/workspaces/cache-zk/";

/// The folder, below the worker's directory, of the Hardhat environment.
pub const HARDHAT_ENV_ROOT: &'static str = "hardhat_env/";

/// The folder, below the worker's directory, of compiled artifacts.
pub const ARTIFACTS_ROOT: &'static str = "hardhat_env/artifacts-zk";

/// The compiler versions the worker accepts.
pub const ZKSOLC_VERSIONS: [&'static str; 2] = ["1.4.1", "1.4.0"];

/// The Solidity version configured for every compilation.
pub const DEFAULT_SOLIDITY_VERSION: &'static str = "0.8.24";

/// The compiler version used where none is given.
pub const DEFAULT_ZKSOLC_VERSION: &'static str = "1.4.1";

/// The networks a contract can be verified on.
pub const ALLOWED_NETWORKS: [&'static str; 2] = ["sepolia", "mainnet"];

/// The compiler versions the worker accepts.
pub open spec fn worker_zksolc_version(v: Seq<char>) -> bool {
    v == "1.4.1"@ || v == "1.4.0"@
}

/// Whether the worker accepts a compiler version.
pub fn is_supported_version(v: &str) -> (r: bool)
    ensures
        r == worker_zksolc_version(v@),
{
    str_eq(v, "1.4.1") || str_eq(v, "1.4.0")
}

/// The extension of a file: the text after its last `.`, or the whole name
/// when it has none.
pub fn get_file_ext(file_path: &str) -> (r: String)
    ensures
        r@ == after_last(file_path@, '.'),
{
    crate::api::utils::get_file_ext(file_path)
}

/// The message for a process exit code: `Success` for 0,
/// `CompilationFailed` for another code, `UnknownError` when there was none.
pub fn status_code_to_message(status: Option<i32>) -> (r: String)
    ensures
        r@ == status_message(status),
{
    crate::api::utils::status_code_to_message(status)
}

/// Where an uploaded file of a compiler version is kept in the workspaces;
/// a Solidity file `x.sol` gets a folder of its own, `x/x.sol`.
pub fn get_file_path(version: &str, file_path: &str) -> (r: String)
    requires
        sol_path_has_parts(SOL_ROOT@, version@, file_path@),
    ensures
        r@ == file_path_spec(SOL_ROOT@, version@, file_path@),
{
    file_path_under(SOL_ROOT, version, file_path)
}

/// Where an uploaded file is kept, or `None` for a Solidity path without a
/// last component or parent (where the path could not be formed).
pub fn try_get_file_path(version: &str, file_path: &str) -> (r: Option<String>)
    ensures
        sol_path_has_parts(SOL_ROOT@, version@, file_path@) ==> (r matches Some(p) && p@
            == file_path_spec(SOL_ROOT@, version@, file_path@)),
        !sol_path_has_parts(SOL_ROOT@, version@, file_path@) ==> r is None,
{
    let dir = path_join(SOL_ROOT, version);
    let full = path_join(dir.as_str(), file_path);
    let ext = get_file_ext(file_path);
    if str_eq(ext.as_str(), "sol") {
        if file_name(full.as_str()).is_none() || parent(full.as_str()).is_none() {
            return None;
        }
    }
    Some(get_file_path(version, file_path))
}

/// The storage folder of a task's artifacts: `artifacts/<id>/`.
pub open spec fn artifacts_dir(id: Seq<char>) -> Seq<char> {
    ARTIFACTS_FOLDER@ + "/"@ + id + "/"@
}

/// The storage folder of a task's uploaded sources: `<id>/`.
pub open spec fn compilation_files_dir(id: Seq<char>) -> Seq<char> {
    id + "/"@
}

/// The storage folder of a task's artifacts.
pub fn s3_artifacts_dir(id: &str) -> (r: String)
    ensures
        r@ == artifacts_dir(id@),
{
    let mut s = String::from_str(ARTIFACTS_FOLDER);
    s.append("/");
    s.append(id);
    s.append("/");
    s
}

/// The storage folder of a task's uploaded sources.
pub fn s3_compilation_files_dir(id: &str) -> (r: String)
    ensures
        r@ == compilation_files_dir(id@),
{
    let mut s = String::from_str(id);
    s.append("/");
    s
}

/// The storage key of an artifact: `artifacts/<id>/<path>`.
pub open spec fn artifact_key(id: Seq<char>, file_path: Seq<char>) -> Seq<char> {
    ARTIFACTS_FOLDER@ + "/"@ + id + "/"@ + file_path
}

/// The storage key of an artifact of a task.
pub fn s3_artifact_key(id: &str, file_path: &str) -> (r: String)
    ensures
        r@ == artifact_key(id@, file_path@),
{
    let mut s = s3_artifacts_dir(id);
    s.append(file_path);
    s
}

/// The Solidity source used to check that compilation works.
pub fn generate_mock_solidity_file_content() -> (r: String)
    ensures
        r@ == crate::api::utils::MOCK_SOLIDITY_FILE_CONTENT@,
{
    crate::api::utils::generate_mock_solidity_file_content()
}

/// The worker accepts a zksolc version exactly when it is one of the
/// entries of its `ZKSOLC_VERSIONS`.
pub proof fn lemma_worker_versions(v: Seq<char>)
    ensures
        worker_zksolc_version(v) <==> exists|i: int| 0 <= i < 2 && v == #[trigger] ZKSOLC_VERSIONS[i]@,
        forall|i: int| 0 <= i < 2 ==> worker_zksolc_version(#[trigger] ZKSOLC_VERSIONS[i]@),
{
    assert(ZKSOLC_VERSIONS[0]@ == "1.4.1"@);
    assert(ZKSOLC_VERSIONS[1]@ == "1.4.0"@);
}

} // verus!
