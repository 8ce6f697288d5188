//! The first generation of the service: its record format (a status with
//! an optional message, and an item keyed by a string id), still written by
//! the upload functions, and the rules of its compile worker.
use vstd::prelude::*;

use crate::attribute::{Attr, AttributeMap, AttributeValue};
use crate::api::handlers::{artifact_name, folder_under};
use crate::api::hardhat_config::{config_text, hardhat_config_content, DEFAULT_CONTRACTS_LOCATION, DEFAULT_SOLIDITY_VERSION};
use crate::api::types::{CompileResponse, CompiledFile, CompilationRequest};
use crate::api::utils::SOL_ROOT;
use crate::paths::{join_spec, path_join, strip_prefix};
use crate::text::{decimal, decimal_string, ends_with, is_suffix, lemma_parse_decimal, parse_u32, parse_u32_spec};

verus! {

/// Where a task stands, with the message of a finished one.
#[derive(Debug, Clone, PartialEq)]
pub enum Status {
    Pending,
    Compiling,
    Ready(String),
    Failed(String),
}

/// The content of a [`Status`].
pub enum StatusView {
    Pending,
    Compiling,
    Ready(Seq<char>),
    Failed(Seq<char>),
}

impl View for Status {
    type V = StatusView;

    open spec fn view(&self) -> StatusView {
        match self {
            Status::Pending => StatusView::Pending,
            Status::Compiling => StatusView::Compiling,
            Status::Ready(s) => StatusView::Ready(s@),
            Status::Failed(s) => StatusView::Failed(s@),
        }
    }
}

/// The number a status is stored as.
pub open spec fn status_code(s: StatusView) -> u32 {
    match s {
        StatusView::Pending => 0,
        StatusView::Compiling => 1,
        StatusView::Ready(_) => 2,
        StatusView::Failed(_) => 3,
    }
}

/// How a status is stored: its number under `Status`, and the message of a
/// finished task under `Data`.
pub open spec fn encode_status(s: StatusView) -> Map<Seq<char>, Attr> {
    let m = Map::empty().insert("Status"@, Attr::N(decimal(status_code(s) as nat)));
    match s {
        StatusView::Ready(d) => m.insert("Data"@, Attr::S(d)),
        StatusView::Failed(d) => m.insert("Data"@, Attr::S(d)),
        _ => m,
    }
}

/// The status a stored map holds, if it holds one.
pub open spec fn decode_status(m: Map<Seq<char>, Attr>) -> Option<StatusView> {
    if !m.contains_key("Status"@) {
        None
    } else {
        match m["Status"@] {
            Attr::N(t) => match parse_u32_spec(t) {
                Err(_) => None,
                Ok(v) => if v == 0 {
                    Some(StatusView::Pending)
                } else if v == 1 {
                    Some(StatusView::Compiling)
                } else if v == 2 || v == 3 {
                    if !m.contains_key("Data"@) {
                        None
                    } else {
                        match m["Data"@] {
                            Attr::S(d) => if v == 2 {
                                Some(StatusView::Ready(d))
                            } else {
                                Some(StatusView::Failed(d))
                            },
                            _ => None,
                        }
                    }
                } else {
                    None
                },
            },
            _ => None,
        }
    }
}

impl Status {
    /// The number this status is stored as.
    pub fn code(&self) -> (r: u32)
        ensures
            r == status_code(self@),
    {
        match self {
            Status::Pending => 0,
            Status::Compiling => 1,
            Status::Ready(_) => 2,
            Status::Failed(_) => 3,
        }
    }

    /// Stores this status as an attribute map.
    pub fn into_attribute_map(self) -> (r: AttributeMap)
        ensures
            r@ == encode_status(self@),
    {
        let code = self.code();
        let mut map = AttributeMap::single(
            String::from_str("Status"),
            AttributeValue::N(decimal_string(code as u64)),
        );
        match self {
            Status::Ready(val) => map.insert(String::from_str("Data"), AttributeValue::S(val)),
            Status::Failed(val) => map.insert(String::from_str("Data"), AttributeValue::S(val)),
            _ => {},
        }
        map
    }

    /// Reads a status from an attribute map; `None` when the map holds none.
    pub fn try_from_attribute_map(value: &AttributeMap) -> (r: Option<Status>)
        ensures
            match decode_status(value@) {
                Some(s) => r matches Some(x) && x@ == s,
                None => r is None,
            },
    {
        let text = match value.get("Status") {
            Some(AttributeValue::N(t)) => t,
            _ => {
                return None;
            },
        };
        let num = match parse_u32(text.as_str()) {
            Ok(n) => n,
            Err(_) => {
                return None;
            },
        };
        if num == 0 {
            Some(Status::Pending)
        } else if num == 1 {
            Some(Status::Compiling)
        } else if num == 2 || num == 3 {
            let data = match value.get("Data") {
                Some(AttributeValue::S(d)) => d.clone(),
                _ => {
                    return None;
                },
            };
            if num == 2 {
                Some(Status::Ready(data))
            } else {
                Some(Status::Failed(data))
            }
        } else {
            None
        }
    }
}

/// Reading back a stored status gives the status.
pub proof fn lemma_status_roundtrip(s: StatusView)
    ensures
        decode_status(encode_status(s)) == Some(s),
{
    reveal_strlit("Status");
    reveal_strlit("Data");
    assert("Status"@.len() != "Data"@.len());
    lemma_parse_decimal(status_code(s));
}

/// A task record keyed by its id.
#[derive(Debug, Clone, PartialEq)]
pub struct Item {
    pub id: String,
    pub status: Status,
}

/// The content of an [`Item`].
pub struct ItemView {
    pub id: Seq<char>,
    pub status: StatusView,
}

impl View for Item {
    type V = ItemView;

    open spec fn view(&self) -> ItemView {
        ItemView { id: self.id@, status: self.status@ }
    }
}

/// How an item is stored: its id under `ID`, and its status.
pub open spec fn encode_item(i: ItemView) -> Map<Seq<char>, Attr> {
    Map::empty().insert("ID"@, Attr::S(i.id)).union_prefer_right(encode_status(i.status))
}

/// The item a stored map holds, if it holds one.
pub open spec fn decode_item(m: Map<Seq<char>, Attr>) -> Option<ItemView> {
    if !m.contains_key("ID"@) {
        None
    } else {
        match m["ID"@] {
            Attr::S(id) => match decode_status(m) {
                Some(status) => Some(ItemView { id, status }),
                None => None,
            },
            _ => None,
        }
    }
}

impl Item {
    /// Stores this item as an attribute map.
    pub fn into_attribute_map(self) -> (r: AttributeMap)
        ensures
            r@ == encode_item(self@),
    {
        let mut map = AttributeMap::single(String::from_str("ID"), AttributeValue::S(self.id));
        map.extend(self.status.into_attribute_map());
        map
    }

    /// Reads an item from an attribute map; `None` when the map holds none.
    pub fn try_from_attribute_map(value: &AttributeMap) -> (r: Option<Item>)
        ensures
            match decode_item(value@) {
                Some(i) => r matches Some(x) && x@ == i,
                None => r is None,
            },
    {
        let id = match value.get("ID") {
            Some(AttributeValue::S(t)) => t.clone(),
            _ => {
                return None;
            },
        };
        match Status::try_from_attribute_map(value) {
            Some(status) => Some(Item { id, status }),
            None => None,
        }
    }
}

/// Reading back a stored item gives the item.
pub proof fn lemma_item_roundtrip(i: ItemView)
    ensures
        decode_item(encode_item(i)) == Some(i),
{
    reveal_strlit("Status");
    reveal_strlit("Data");
    reveal_strlit("ID");
    assert("Status"@.len() != "Data"@.len());
    assert("Status"@.len() != "ID"@.len());
    assert("Data"@.len() != "ID"@.len());
    let m = encode_item(i);
    let sm = encode_status(i.status);
    assert(m["ID"@] == Attr::S(i.id));
    assert(m.contains_key("Status"@) && m["Status"@] == sm["Status"@]);
    assert(sm.contains_key("Data"@) ==> m.contains_key("Data"@) && m["Data"@] == sm["Data"@]);
    assert(!sm.contains_key("Data"@) ==> !m.contains_key("Data"@));
    lemma_status_roundtrip(i.status);
    lemma_parse_decimal(status_code(i.status));
}

/// The answer of the first worker to a request without sources: status
/// `Success` and the message `Nothing to compile`.
pub fn nothing_to_compile_response() -> (r: CompileResponse)
    ensures
        r.file_content@.len() == 0,
        r.status@ == "Success"@,
        r.message@ == "Nothing to compile"@,
{
    CompileResponse {
        file_content: Vec::new(),
        status: crate::api::utils::status_code_to_message(Some(0)),
        message: String::from_str("Nothing to compile"),
    }
}

/// Whether the first worker compiles a source: one whose name ends with
/// `_test.sol` is left out.
pub open spec fn is_legacy_source(f: CompiledFile) -> bool {
    !is_suffix(f.file_name@, "_test.sol"@)
}

/// The sources the first worker compiles, in order.
pub open spec fn legacy_sources_spec(files: Seq<CompiledFile>) -> Seq<CompiledFile>
    decreases files.len(),
{
    if files.len() == 0 {
        Seq::empty()
    } else {
        let before = legacy_sources_spec(files.drop_last());
        if is_legacy_source(files.last()) {
            before.push(files.last())
        } else {
            before
        }
    }
}

/// The sources the first worker compiles: the test files are left out.
pub fn legacy_sources(files: Vec<CompiledFile>) -> (r: Vec<CompiledFile>)
    ensures
        r@ == legacy_sources_spec(files@),
{
    let ghost all = files@;
    let mut rest = files;
    let mut kept: Vec<CompiledFile> = Vec::new();
    let ghost mut k: int = 0;
    while rest.len() > 0
        invariant
            0 <= k <= all.len(),
            rest@ == all.subrange(k, all.len() as int),
            kept@ == legacy_sources_spec(all.subrange(0, k)),
        decreases rest@.len(),
    {
        let f = rest.remove(0);
        proof {
            assert(all.subrange(0, k + 1).drop_last() =~= all.subrange(0, k));
            assert(all.subrange(k + 1, all.len() as int) =~= all.subrange(k, all.len() as int).remove(0));
        }
        if !ends_with(f.file_name.as_str(), "_test.sol") {
            kept.push(f);
        }
        proof {
            k = k + 1;
        }
    }
    assert(all.subrange(0, all.len() as int) =~= all);
    kept
}

/// How the first worker lays out a compilation in namespace `ns`: the
/// workspace, its artifacts folder, the configuration file and its text.
#[derive(Debug)]
pub struct LegacyCompilePlan {
    pub workspace_path: String,
    pub artifacts_path: String,
    pub hardhat_config_path: String,
    pub hardhat_config_content: String,
}

/// The layout of the first worker's compilation of a request in namespace
/// `ns`; the configuration names the request's sources folder where it
/// gives one.
pub fn plan_legacy_compile(request: &CompilationRequest, ns: &str) -> (r: LegacyCompilePlan)
    ensures
        r.workspace_path@ == folder_under(SOL_ROOT@, ns@),
        r.artifacts_path@ == folder_under(folder_under(SOL_ROOT@, ns@), "artifacts-zk"@),
        r.hardhat_config_path@ == join_spec(folder_under(SOL_ROOT@, ns@), "hardhat.config.ts"@),
        r.hardhat_config_content@ == config_text(
            request.config.version@,
            DEFAULT_SOLIDITY_VERSION@,
            match request.target_path {
                Some(p) => p@,
                None => DEFAULT_CONTRACTS_LOCATION@,
            },
        ),
{
    let mut ws = String::from_str(SOL_ROOT);
    ws.append("/");
    ws.append(ns);
    let mut artifacts = ws.clone();
    artifacts.append("/");
    artifacts.append("artifacts-zk");
    let config_path = path_join(ws.as_str(), "hardhat.config.ts");
    let content = match &request.target_path {
        Some(p) => hardhat_config_content(request.config.version.as_str(), DEFAULT_SOLIDITY_VERSION, Some(p.as_str())),
        None => hardhat_config_content(request.config.version.as_str(), DEFAULT_SOLIDITY_VERSION, None),
    };
    LegacyCompilePlan {
        workspace_path: ws,
        artifacts_path: artifacts,
        hardhat_config_path: config_path,
        hardhat_config_content: content,
    }
}

/// An artifact as the first worker answers it: named by its path below the
/// artifacts folder, a contract when the name ends with `.json` but not
/// `.dbg.json`.
pub fn legacy_compiled_file(artifacts_path: &str, file_path: &str, content: String) -> (r: CompiledFile)
    ensures
        r.file_name@ == artifact_name(artifacts_path@, file_path@),
        r.file_content == content,
        r.is_contract == (!is_suffix(r.file_name@, ".dbg.json"@) && is_suffix(r.file_name@, ".json"@)),
{
    let name = match strip_prefix(file_path, artifacts_path) {
        Some(rel) => rel,
        None => String::from_str(file_path),
    };
    let is_contract = !ends_with(name.as_str(), ".dbg.json") && ends_with(name.as_str(), ".json");
    CompiledFile { file_name: name, file_content: content, is_contract }
}

} // verus!
