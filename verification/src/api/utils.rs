//! Settings and helpers of the compilation API: supported versions, file
//! names, compiler diagnostics.
use vstd::prelude::*;

use crate::api::types::{ApiError, CompilationConfig, CompilationRequest, CompiledFile};
use crate::paths::{file_name, parent, path_file_name, path_join, path_parent, join_spec};
use crate::text::{parse_u32, parse_u32_spec, parse_usize, parse_usize_spec, after_last, decimal, decimal_string, join, join_spec as join_text, split_last, str_eq, trim_end_all, trim_end_matches};

verus! {

/// The folder, below the service's directory, that holds the workspaces.
pub const SOL_ROOT: &'static str = "hardhat_env/workspaces/";

/// The folder, below the service's directory, that holds the zksolc cache.
pub const ZK_CACHE_ROOT: &'static str = "hardhat_env/workspaces/cache-zk/";

/// The folder, below the service's directory, of the Hardhat environment.
pub const HARDHAT_ENV_ROOT: &'static str = "hardhat_env/";

/// The folder, below the service's directory, that holds compiled artifacts.
pub const ARTIFACTS_ROOT: &'static str = "hardhat_env/artifacts-zk";

/// Seconds after which a finished task's files are removed.
pub const DURATION_TO_PURGE: u64 = 300;

/// The compiler versions the API accepts.
pub const ZKSOLC_VERSIONS: [&'static str; 4] = ["1.5.6", "1.5.5", "1.4.1", "1.4.0"];

/// The networks a contract can be verified on.
pub const ALLOWED_NETWORKS: [&'static str; 2] = ["sepolia", "mainnet"];

/// How many worker threads serve commands unless configured otherwise.
pub const DEFAULT_WORKER_THREADS: u32 = 2;

/// How many worker threads serve commands, from the configured text: the
/// number it holds, or the default where there is none or it is no number.
pub fn worker_threads(setting: Option<&str>) -> (r: u32)
    ensures
        match setting {
            Some(s) => match parse_u32_spec(s@) {
                Ok(n) => r == n,
                Err(_) => r == DEFAULT_WORKER_THREADS,
            },
            None => r == DEFAULT_WORKER_THREADS,
        },
{
    match setting {
        Some(s) => match parse_u32(s) {
            Ok(n) => n,
            Err(_) => DEFAULT_WORKER_THREADS,
        },
        None => DEFAULT_WORKER_THREADS,
    }
}

/// How many commands may wait for a worker thread unless configured
/// otherwise.
pub const DEFAULT_QUEUE_SIZE: usize = 1000;

/// How many commands may wait for a worker thread, from the configured
/// text: the number it holds, or the default where there is none or it is
/// no number.
pub fn queue_size(setting: Option<&str>) -> (r: usize)
    ensures
        match setting {
            Some(s) => match parse_usize_spec(s@) {
                Ok(n) => r == n,
                Err(_) => r == DEFAULT_QUEUE_SIZE,
            },
            None => r == DEFAULT_QUEUE_SIZE,
        },
{
    match setting {
        Some(s) => match parse_usize(s) {
            Ok(n) => n,
            Err(_) => DEFAULT_QUEUE_SIZE,
        },
        None => DEFAULT_QUEUE_SIZE,
    }
}

/// The compiler versions the API accepts.
pub open spec fn supported_zksolc_version(v: Seq<char>) -> bool {
    v == "1.5.6"@ || v == "1.5.5"@ || v == "1.4.1"@ || v == "1.4.0"@
}

/// The networks a contract can be verified on.
pub open spec fn allowed_network(n: Seq<char>) -> bool {
    n == "sepolia"@ || n == "mainnet"@
}

/// Whether the API accepts a compiler version.
pub fn is_supported_zksolc_version(v: &str) -> (r: bool)
    ensures
        r == supported_zksolc_version(v@),
{
    str_eq(v, "1.5.6") || str_eq(v, "1.5.5") || str_eq(v, "1.4.1") || str_eq(v, "1.4.0")
}

/// Whether contracts can be verified on a network.
pub fn is_allowed_network(n: &str) -> (r: bool)
    ensures
        r == allowed_network(n@),
{
    str_eq(n, "sepolia") || str_eq(n, "mainnet")
}

/// The text that the bytes `b` encode in UTF-8, or `None` where they are no
/// valid UTF-8.
pub uninterp spec fn utf8_decode(b: Seq<u8>) -> Option<Seq<char>>;

/// Calls `String::from_utf8`. Claimed: the outcome is `utf8_decode` of the
/// bytes, a function of the bytes alone. Which byte strings are valid is
/// left unsaid.
#[verifier::external_body]
fn decode_utf8(bytes: Vec<u8>) -> (r: Option<String>)
    ensures
        match utf8_decode(bytes@) {
            Some(t) => r matches Some(s) && s@ == t,
            None => r is None,
        },
{
    String::from_utf8(bytes).ok()
}

/// A path, given by the bytes of its name as the system stores them, as
/// text; a name that is no UTF-8 cannot be read.
pub fn path_buf_to_string(path_bytes: Vec<u8>) -> (r: Result<String, ApiError>)
    ensures
        match utf8_decode(path_bytes@) {
            Some(t) => r matches Ok(s) && s@ == t,
            None => r == Err::<String, ApiError>(ApiError::FailedToParseString),
        },
{
    match decode_utf8(path_bytes) {
        Some(s) => Ok(s),
        None => Err(ApiError::FailedToParseString),
    }
}

/// The extension of a file: the text after its last `.`, or the whole name
/// when it has none.
pub fn get_file_ext(file_path: &str) -> (r: String)
    ensures
        r@ == after_last(file_path@, '.'),
{
    split_last(file_path, '.')
}

/// Checks that a file has the extension `ext`; the actual extension is the
/// error otherwise.
pub fn check_file_ext(file_path: &str, ext: &str) -> (r: Result<(), ApiError>)
    ensures
        after_last(file_path@, '.') == ext@ ==> r is Ok,
        after_last(file_path@, '.') != ext@ ==> (r matches Err(ApiError::FileExtensionNotSupported(
            a,
        )) && a@ == after_last(file_path@, '.')),
{
    let actual_ext = get_file_ext(file_path);
    if str_eq(actual_ext.as_str(), ext) {
        Ok(())
    } else {
        Err(ApiError::FileExtensionNotSupported(actual_ext))
    }
}

/// The message for a process exit code: `Success` for 0, `CompilationFailed`
/// for another code, `UnknownError` when the process had none.
pub open spec fn status_message(status: Option<i32>) -> Seq<char> {
    match status {
        Some(0) => "Success"@,
        Some(_) => "CompilationFailed"@,
        None => "UnknownError"@,
    }
}

/// The message for a process exit code.
pub fn status_code_to_message(status: Option<i32>) -> (r: String)
    ensures
        r@ == status_message(status),
{
    match status {
        Some(0) => String::from_str("Success"),
        Some(_) => String::from_str("CompilationFailed"),
        None => String::from_str("UnknownError"),
    }
}

/// Where an uploaded file is kept: `<root>/<version>/<file>`, and a Solidity
/// file `x.sol` is moved into a folder of its own, `<dir>/x/x.sol`.
pub open spec fn file_path_spec(root: Seq<char>, version: Seq<char>, file: Seq<char>) -> Seq<char> {
    let p = join_spec(join_spec(root, version), file);
    if after_last(file, '.') == "sol"@ {
        let name = path_file_name(p)->Some_0;
        join_spec(join_spec(path_parent(p)->Some_0, trim_end_all(name, ".sol"@)), name)
    } else {
        p
    }
}

/// The path of a Solidity file has a last component and a parent, as a
/// path ending in `.sol` does.
pub open spec fn sol_path_has_parts(root: Seq<char>, version: Seq<char>, file: Seq<char>) -> bool {
    let p = join_spec(join_spec(root, version), file);
    after_last(file, '.') == "sol"@ ==> path_file_name(p) is Some && path_parent(p) is Some
}

/// Where an uploaded file is kept below `root`.
pub fn file_path_under(root: &str, version: &str, file_path: &str) -> (r: String)
    requires
        sol_path_has_parts(root@, version@, file_path@),
    ensures
        r@ == file_path_spec(root@, version@, file_path@),
{
    let dir = path_join(root, version);
    let full = path_join(dir.as_str(), file_path);
    let ext = get_file_ext(file_path);
    let sol = "sol";
    if str_eq(ext.as_str(), sol) {
        let name = match file_name(full.as_str()) {
            Some(n) => n,
            None => {
                proof {
                    assert(false);
                }
                return full;
            },
        };
        let up = match parent(full.as_str()) {
            Some(n) => n,
            None => {
                proof {
                    assert(false);
                }
                return full;
            },
        };
        let dot_sol = ".sol";
        proof {
            reveal_strlit(".sol");
        }
        let stem = trim_end_matches(name.as_str(), dot_sol);
        let folder = path_join(up.as_str(), stem.as_str());
        path_join(folder.as_str(), name.as_str())
    } else {
        full
    }
}

/// Where an uploaded file of a compiler version is kept in the workspaces.
pub fn get_file_path(version: &str, file_path: &str) -> (r: String)
    requires
        sol_path_has_parts(SOL_ROOT@, version@, file_path@),
    ensures
        r@ == file_path_spec(SOL_ROOT@, version@, file_path@),
{
    file_path_under(SOL_ROOT, version, file_path)
}

/// Where an uploaded file is kept, or `None` for a Solidity path without a
/// last component or parent (where the path could not be formed).
pub fn try_get_file_path(version: &str, file_path: &str) -> (r: Option<String>)
    ensures
        sol_path_has_parts(SOL_ROOT@, version@, file_path@) ==> (r matches Some(p) && p@
            == file_path_spec(SOL_ROOT@, version@, file_path@)),
        !sol_path_has_parts(SOL_ROOT@, version@, file_path@) ==> r is None,
{
    let dir = path_join(SOL_ROOT, version);
    let full = path_join(dir.as_str(), file_path);
    let ext = get_file_ext(file_path);
    if str_eq(ext.as_str(), "sol") {
        if file_name(full.as_str()).is_none() || parent(full.as_str()).is_none() {
            return None;
        }
    }
    Some(get_file_path(version, file_path))
}

/// The Solidity source used to check that compilation works.
pub const MOCK_SOLIDITY_FILE_CONTENT: &'static str = "
    pragma solidity ^0.8.0;

    contract SimpleStorage {
        uint256 storedData;

        function set(uint256 x) public {
            storedData = x;
        }

        function get() public view returns (uint256) {
            return storedData;
        }
    }
    ";

/// The Solidity source used to check that compilation works.
pub fn generate_mock_solidity_file_content() -> (r: String)
    ensures
        r@ == MOCK_SOLIDITY_FILE_CONTENT@,
{
    String::from_str(MOCK_SOLIDITY_FILE_CONTENT)
}

/// The request used to check that compilation works: the mock source as
/// `SimpleStorage.sol`, compiled with zksolc 1.4.1.
pub fn generate_mock_compile_request() -> (r: CompilationRequest)
    ensures
        r.config.version@ == "1.4.1"@,
        r.config.user_libraries@.len() == 0,
        r.contracts@.len() == 1,
        r.contracts@[0].file_name@ == "SimpleStorage.sol"@,
        r.contracts@[0].file_content@ == MOCK_SOLIDITY_FILE_CONTENT@,
        !r.contracts@[0].is_contract,
        r.target_path is None,
{
    let mut contracts: Vec<CompiledFile> = Vec::new();
    contracts.push(
        CompiledFile {
            file_name: String::from_str("SimpleStorage.sol"),
            file_content: generate_mock_solidity_file_content(),
            is_contract: false,
        },
    );
    CompilationRequest {
        config: CompilationConfig { version: String::from_str("1.4.1"), user_libraries: Vec::new() },
        contracts,
        target_path: None,
    }
}

/// The severity of a compiler diagnostic.
#[derive(Debug, Clone, Copy, PartialEq, Eq, Structural)]
pub enum Level {
    Debug,
    Info,
    Warning,
    Error,
}

/// The kind of a compiler diagnostic; `Unspecified` is the parser's `None`.
#[derive(Debug, Clone, Copy, PartialEq, Eq, Structural)]
pub enum ErrorType {
    Unspecified,
    ParserError,
    SyntaxError,
    DeclarationError,
    CastError,
    TypeError,
    Warning,
}

/// Where a diagnostic points: a span of a file, or a place outside sources.
#[derive(Debug, Clone, Copy, PartialEq, Eq, Structural)]
pub enum Loc {
    Builtin,
    CommandLine,
    Implicit,
    Codegen,
    File(usize, usize, usize),
}

/// A note attached to a diagnostic.
#[derive(Debug, Clone, PartialEq)]
pub struct Note {
    pub loc: Loc,
    pub message: String,
}

/// A compiler diagnostic, as the Solidity parser reports it.
#[derive(Debug, Clone, PartialEq)]
pub struct Diagnostic {
    pub loc: Loc,
    pub level: Level,
    pub ty: ErrorType,
    pub message: String,
    pub notes: Vec<Note>,
}

/// The name of a severity.
pub open spec fn level_name(l: Level) -> Seq<char> {
    match l {
        Level::Debug => "Debug"@,
        Level::Info => "Info"@,
        Level::Warning => "Warning"@,
        Level::Error => "Error"@,
    }
}

/// The name of a diagnostic kind.
pub open spec fn error_type_name(t: ErrorType) -> Seq<char> {
    match t {
        ErrorType::Unspecified => "None"@,
        ErrorType::ParserError => "ParserError"@,
        ErrorType::SyntaxError => "SyntaxError"@,
        ErrorType::DeclarationError => "DeclarationError"@,
        ErrorType::CastError => "CastError"@,
        ErrorType::TypeError => "TypeError"@,
        ErrorType::Warning => "Warning"@,
    }
}

/// How a location is written: `start:end` for a span of a file.
pub open spec fn loc_text(l: Loc) -> Seq<char> {
    match l {
        Loc::Builtin => "Builtin"@,
        Loc::CommandLine => "CommandLine"@,
        Loc::Implicit => "Implicit"@,
        Loc::Codegen => "Codegen"@,
        Loc::File(_, start, end) => decimal(start as nat) + ":"@ + decimal(end as nat),
    }
}

/// The messages of a diagnostic's notes.
pub open spec fn note_messages(notes: Seq<Note>) -> Seq<Seq<char>> {
    notes.map_values(|n: Note| n.message@)
}

/// A diagnostic in one line of text, ended by a line break.
pub open spec fn human_error(d: Diagnostic) -> Seq<char> {
    "level: "@ + level_name(d.level) + ", loc: "@ + loc_text(d.loc) + ", ty: "@ + error_type_name(
        d.ty,
    ) + ", message: "@ + d.message@ + ", notes: "@ + join_text(note_messages(d.notes@), "\n"@)
        + "\n"@
}

fn level_str(l: Level) -> (r: &'static str)
    ensures
        r@ == level_name(l),
{
    match l {
        Level::Debug => "Debug",
        Level::Info => "Info",
        Level::Warning => "Warning",
        Level::Error => "Error",
    }
}

fn error_type_str(t: ErrorType) -> (r: &'static str)
    ensures
        r@ == error_type_name(t),
{
    match t {
        ErrorType::Unspecified => "None",
        ErrorType::ParserError => "ParserError",
        ErrorType::SyntaxError => "SyntaxError",
        ErrorType::DeclarationError => "DeclarationError",
        ErrorType::CastError => "CastError",
        ErrorType::TypeError => "TypeError",
        ErrorType::Warning => "Warning",
    }
}

fn loc_string(l: Loc) -> (r: String)
    ensures
        r@ == loc_text(l),
{
    match l {
        Loc::Builtin => String::from_str("Builtin"),
        Loc::CommandLine => String::from_str("CommandLine"),
        Loc::Implicit => String::from_str("Implicit"),
        Loc::Codegen => String::from_str("Codegen"),
        Loc::File(_, start, end) => {
            let mut s = decimal_string(start as u64);
            s.append(":");
            let e = decimal_string(end as u64);
            s.append(e.as_str());
            s
        },
    }
}

fn human_error_string(diagnostic: &Diagnostic) -> (r: String)
    ensures
        r@ == human_error(*diagnostic),
{
    let mut messages: Vec<String> = Vec::new();
    let mut i: usize = 0;
    while i < diagnostic.notes.len()
        invariant
            i <= diagnostic.notes@.len(),
            messages@.len() == i,
            messages@.map_values(|m: String| m@) == note_messages(diagnostic.notes@).take(i as int),
        decreases diagnostic.notes@.len() - i,
    {
        let ghost m0 = messages@;
        messages.push(diagnostic.notes[i].message.clone());
        proof {
            assert(messages@.map_values(|m: String| m@) =~= m0.map_values(|m: String| m@).push(
                diagnostic.notes@[i as int].message@,
            ));
            assert(messages@.map_values(|m: String| m@) =~= note_messages(diagnostic.notes@).take(
                i + 1,
            ));
        }
        i = i + 1;
    }
    assert(note_messages(diagnostic.notes@).take(diagnostic.notes@.len() as int) =~= note_messages(
        diagnostic.notes@,
    ));
    let notes = join(&messages, "\n");
    let mut s = String::from_str("level: ");
    s.append(level_str(diagnostic.level));
    s.append(", loc: ");
    let loc = loc_string(diagnostic.loc);
    s.append(loc.as_str());
    s.append(", ty: ");
    s.append(error_type_str(diagnostic.ty));
    s.append(", message: ");
    s.append(diagnostic.message.as_str());
    s.append(", notes: ");
    s.append(notes.as_str());
    s.append("\n");
    s
}

/// A diagnostic as one line of text for people.
pub fn to_human_error(diagnostic: Diagnostic) -> (r: String)
    ensures
        r@ == human_error(diagnostic),
{
    human_error_string(&diagnostic)
}

/// Diagnostics as text for people, one after another, separated by line
/// breaks.
pub fn to_human_error_batch(diagnostics: Vec<Diagnostic>) -> (r: String)
    ensures
        r@ == join_text(diagnostics@.map_values(|d: Diagnostic| human_error(d)), "\n"@),
{
    let mut lines: Vec<String> = Vec::new();
    let mut i: usize = 0;
    while i < diagnostics.len()
        invariant
            i <= diagnostics@.len(),
            lines@.len() == i,
            lines@.map_values(|l: String| l@) == diagnostics@.map_values(
                |d: Diagnostic| human_error(d),
            ).take(i as int),
        decreases diagnostics@.len() - i,
    {
        let ghost l0 = lines@;
        let line = human_error_string(&diagnostics[i]);
        lines.push(line);
        proof {
            assert(lines@.map_values(|l: String| l@) =~= l0.map_values(|l: String| l@).push(
                human_error(diagnostics@[i as int]),
            ));
            assert(lines@.map_values(|l: String| l@) =~= diagnostics@.map_values(
                |d: Diagnostic| human_error(d),
            ).take(i + 1));
        }
        i = i + 1;
    }
    assert(diagnostics@.map_values(|d: Diagnostic| human_error(d)).take(
        diagnostics@.len() as int,
    ) =~= diagnostics@.map_values(|d: Diagnostic| human_error(d)));
    join(&lines, "\n")
}

/// A zksolc version is supported exactly when it is one of the entries of
/// `ZKSOLC_VERSIONS`.
pub proof fn lemma_supported_versions(v: Seq<char>)
    ensures
        supported_zksolc_version(v) <==> exists|i: int| 0 <= i < 4 && v == #[trigger] ZKSOLC_VERSIONS[i]@,
        forall|i: int| 0 <= i < 4 ==> supported_zksolc_version(#[trigger] ZKSOLC_VERSIONS[i]@),
{
    assert(ZKSOLC_VERSIONS[0]@ == "1.5.6"@);
    assert(ZKSOLC_VERSIONS[1]@ == "1.5.5"@);
    assert(ZKSOLC_VERSIONS[2]@ == "1.4.1"@);
    assert(ZKSOLC_VERSIONS[3]@ == "1.4.0"@);
}

/// Contracts can be verified on a network exactly when it is one of the
/// entries of `ALLOWED_NETWORKS`.
pub proof fn lemma_allowed_networks(n: Seq<char>)
    ensures
        allowed_network(n) <==> exists|i: int| 0 <= i < 2 && n == #[trigger] ALLOWED_NETWORKS[i]@,
        forall|i: int| 0 <= i < 2 ==> allowed_network(#[trigger] ALLOWED_NETWORKS[i]@),
{
    assert(ALLOWED_NETWORKS[0]@ == "sepolia"@);
    assert(ALLOWED_NETWORKS[1]@ == "mainnet"@);
}

} // verus!
