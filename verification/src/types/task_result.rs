//! The result of a finished task, and how it is stored as attributes.
use vstd::prelude::*;

use crate::attribute::{
    lemma_single_key, strings_view, value_model, Attr, AttributeMap, AttributeValue,
};
use crate::text::{decimal, decimal_string, str_eq};
use crate::types::errors::{
    server_error_from_name, server_error_name, ItemError, ItemErrorView, ServerError,
};

verus! {

/// An exec result agrees with a spec result: both succeed with the same
/// content, or both fail with the same error.
pub open spec fn same_outcome<T: View>(r: Result<T, ItemError>, s: Result<T::V, ItemErrorView>) -> bool {
    match (r, s) {
        (Ok(a), Ok(b)) => a@ == b,
        (Err(e), Err(f)) => e@ == f,
        _ => false,
    }
}

/// A format error with the given text.
pub open spec fn format_error(s: Seq<char>) -> ItemErrorView {
    ItemErrorView::FormatError(s)
}

/// The kind of a compilation artifact.
#[derive(Debug, Clone, Copy, PartialEq, Eq, Structural)]
pub enum ArtifactType {
    Unknown,
    Contract,
    Dbg,
}

/// The name under which an artifact kind is stored.
pub open spec fn artifact_type_name(t: ArtifactType) -> Seq<char> {
    match t {
        ArtifactType::Unknown => "Unknown"@,
        ArtifactType::Contract => "Contract"@,
        ArtifactType::Dbg => "Dbg"@,
    }
}

/// The artifact kind stored under a name, if the name is one.
pub open spec fn artifact_type_from_name(s: Seq<char>) -> Option<ArtifactType> {
    if s == "Unknown"@ {
        Some(ArtifactType::Unknown)
    } else if s == "Contract"@ {
        Some(ArtifactType::Contract)
    } else if s == "Dbg"@ {
        Some(ArtifactType::Dbg)
    } else {
        None
    }
}

/// Reading back the name of an artifact kind gives the kind.
pub proof fn lemma_artifact_type_name_roundtrip(t: ArtifactType)
    ensures
        artifact_type_from_name(artifact_type_name(t)) == Some(t),
{
    reveal_strlit("Unknown");
    reveal_strlit("Contract");
    reveal_strlit("Dbg");
    assert("Unknown"@.len() != "Contract"@.len());
    assert("Unknown"@.len() != "Dbg"@.len());
    assert("Contract"@.len() != "Dbg"@.len());
}

impl ArtifactType {
    /// The name under which this artifact kind is stored.
    pub fn as_str(self) -> (r: &'static str)
        ensures
            r@ == artifact_type_name(self),
    {
        match self {
            ArtifactType::Unknown => "Unknown",
            ArtifactType::Contract => "Contract",
            ArtifactType::Dbg => "Dbg",
        }
    }

    /// The artifact kind named `value`.
    pub fn try_from_str(value: &str) -> (r: Result<ArtifactType, ItemError>)
        ensures
            match artifact_type_from_name(value@) {
                Some(t) => r == Ok::<ArtifactType, ItemError>(t),
                None => r matches Err(e) && e@ == format_error(
                    "Unknown ArtifactType variant: "@ + value@,
                ),
            },
    {
        if str_eq(value, "Unknown") {
            Ok(ArtifactType::Unknown)
        } else if str_eq(value, "Contract") {
            Ok(ArtifactType::Contract)
        } else if str_eq(value, "Dbg") {
            Ok(ArtifactType::Dbg)
        } else {
            let mut s = String::from_str("Unknown ArtifactType variant: ");
            s.append(value);
            Err(ItemError::FormatError(s))
        }
    }
}

/// A compiled artifact: its kind, its path and where it can be downloaded.
#[derive(Debug, Clone, PartialEq)]
pub struct ArtifactInfo {
    pub artifact_type: ArtifactType,
    pub file_path: String,
    pub presigned_url: String,
}

/// The content of an [`ArtifactInfo`].
pub struct ArtifactInfoView {
    pub artifact_type: ArtifactType,
    pub file_path: Seq<char>,
    pub presigned_url: Seq<char>,
}

impl View for ArtifactInfo {
    type V = ArtifactInfoView;

    open spec fn view(&self) -> ArtifactInfoView {
        ArtifactInfoView {
            artifact_type: self.artifact_type,
            file_path: self.file_path@,
            presigned_url: self.presigned_url@,
        }
    }
}

/// How an artifact is stored: a string set of its kind, path and URL.
pub open spec fn encode_artifact_info(a: ArtifactInfoView) -> Attr {
    Attr::Ss(seq![artifact_type_name(a.artifact_type), a.file_path, a.presigned_url])
}

/// The artifact that a stored value holds.
pub open spec fn decode_artifact_info(a: Attr) -> Result<ArtifactInfoView, ItemErrorView> {
    match a {
        Attr::Ss(d) => if d.len() != 3 {
            Err(format_error("Invalid number of values: "@ + decimal(d.len())))
        } else {
            match artifact_type_from_name(d[0]) {
                None => Err(format_error("Unknown ArtifactType variant: "@ + d[0])),
                Some(t) => Ok(ArtifactInfoView { artifact_type: t, file_path: d[1], presigned_url: d[2] }),
            }
        },
        _ => Err(format_error("Artifact pair"@)),
    }
}

/// The contents of a list of artifacts.
pub open spec fn artifacts_view(v: Seq<ArtifactInfo>) -> Seq<ArtifactInfoView> {
    v.map_values(|a: ArtifactInfo| a@)
}

/// How a list of artifacts is stored.
pub open spec fn encode_artifacts(v: Seq<ArtifactInfoView>) -> Seq<Attr> {
    v.map_values(|a: ArtifactInfoView| encode_artifact_info(a))
}

/// The artifacts that a stored list holds; the first element that is not an
/// artifact decides the error.
pub open spec fn decode_artifacts(s: Seq<Attr>) -> Result<Seq<ArtifactInfoView>, ItemErrorView>
    decreases s.len(),
{
    if s.len() == 0 {
        Ok(Seq::empty())
    } else {
        match decode_artifact_info(s[0]) {
            Err(e) => Err(e),
            Ok(a) => match decode_artifacts(s.drop_first()) {
                Err(e) => Err(e),
                Ok(rest) => Ok(seq![a] + rest),
            },
        }
    }
}

impl ArtifactInfo {
    /// The number of strings an artifact is stored as.
    pub fn size() -> (r: usize)
        ensures
            r == 3,
    {
        3
    }

    /// Stores this artifact as an attribute value.
    pub fn into_attribute_value(self) -> (r: AttributeValue)
        ensures
            r@ == encode_artifact_info(self@),
    {
        let mut v: Vec<String> = Vec::new();
        v.push(String::from_str(self.artifact_type.as_str()));
        v.push(self.file_path);
        v.push(self.presigned_url);
        let r = AttributeValue::Ss(v);
        assert(strings_view(v@) =~= seq![artifact_type_name(self.artifact_type), self.file_path@, self.presigned_url@]);
        r
    }

    /// Reads an artifact from an attribute value.
    pub fn try_from_attribute_value(value: &AttributeValue) -> (r: Result<ArtifactInfo, ItemError>)
        ensures
            same_outcome(r, decode_artifact_info(value@)),
    {
        match value {
            AttributeValue::Ss(data) => {
                let n = data.len();
                if n != ArtifactInfo::size() {
                    let mut s = String::from_str("Invalid number of values: ");
                    let num = decimal_string(n as u64);
                    s.append(num.as_str());
                    return Err(ItemError::FormatError(s));
                }
                proof {
                    assert(strings_view(data@)[0] == data@[0]@);
                    assert(strings_view(data@)[1] == data@[1]@);
                    assert(strings_view(data@)[2] == data@[2]@);
                }
                let artifact_type = ArtifactType::try_from_str(data[0].as_str())?;
                Ok(
                    ArtifactInfo {
                        artifact_type,
                        file_path: data[1].clone(),
                        presigned_url: data[2].clone(),
                    },
                )
            },
            _ => Err(ItemError::FormatError(String::from_str("Artifact pair"))),
        }
    }
}

/// Reading back a stored artifact gives the artifact.
pub proof fn lemma_artifact_info_roundtrip(a: ArtifactInfoView)
    ensures
        decode_artifact_info(encode_artifact_info(a)) == Ok::<ArtifactInfoView, ItemErrorView>(a),
{
    lemma_artifact_type_name_roundtrip(a.artifact_type);
}

/// Reading back a stored list of artifacts gives the list.
pub proof fn lemma_artifacts_roundtrip(v: Seq<ArtifactInfoView>)
    ensures
        decode_artifacts(encode_artifacts(v)) == Ok::<Seq<ArtifactInfoView>, ItemErrorView>(v),
    decreases v.len(),
{
    if v.len() > 0 {
        lemma_artifact_info_roundtrip(v[0]);
        assert(encode_artifacts(v)[0] == encode_artifact_info(v[0]));
        assert(encode_artifacts(v).drop_first() =~= encode_artifacts(v.drop_first()));
        lemma_artifacts_roundtrip(v.drop_first());
        assert(seq![v[0]] + v.drop_first() =~= v);
    } else {
        assert(encode_artifacts(v) =~= Seq::<Attr>::empty());
        assert(v =~= Seq::<ArtifactInfoView>::empty());
    }
}

/// What a successful task produced.
#[derive(Debug, Clone, PartialEq)]
pub enum TaskSuccess {
    Compile { artifacts_info: Vec<ArtifactInfo> },
    Verify { message: String },
}

/// The content of a [`TaskSuccess`].
pub enum TaskSuccessView {
    Compile(Seq<ArtifactInfoView>),
    Verify(Seq<char>),
}

impl View for TaskSuccess {
    type V = TaskSuccessView;

    open spec fn view(&self) -> TaskSuccessView {
        match self {
            TaskSuccess::Compile { artifacts_info } => TaskSuccessView::Compile(
                artifacts_view(artifacts_info@),
            ),
            TaskSuccess::Verify { message } => TaskSuccessView::Verify(message@),
        }
    }
}

/// How a success is stored: one entry named after its kind.
pub open spec fn encode_task_success(t: TaskSuccessView) -> Map<Seq<char>, Attr> {
    match t {
        TaskSuccessView::Compile(infos) => Map::empty().insert(
            "Compile"@,
            Attr::L(encode_artifacts(infos)),
        ),
        TaskSuccessView::Verify(m) => Map::empty().insert("Verify"@, Attr::S(m)),
    }
}

/// The success stored under the name `k` as value `v`.
pub open spec fn decode_task_success_entry(k: Seq<char>, v: Attr) -> Result<
    TaskSuccessView,
    ItemErrorView,
> {
    if k == "Compile"@ {
        match v {
            Attr::L(l) => match decode_artifacts(l) {
                Ok(infos) => Ok(TaskSuccessView::Compile(infos)),
                Err(e) => Err(e),
            },
            _ => Err(format_error("invalid type"@)),
        }
    } else if k == "Verify"@ {
        match v {
            Attr::S(m) => Ok(TaskSuccessView::Verify(m)),
            _ => Err(format_error("invalid type"@)),
        }
    } else {
        Err(format_error("Invalid key in TaskSuccess: "@ + k))
    }
}

/// The success that a stored map holds: exactly one entry is expected.
pub open spec fn decode_task_success(m: Map<Seq<char>, Attr>) -> Result<
    TaskSuccessView,
    ItemErrorView,
> {
    if m.len() == 0 {
        Err(format_error("No keys for TaskResult"@))
    } else if m.len() != 1 {
        Err(format_error("More than 1 key in TaskSuccess"@))
    } else {
        let k = m.dom().choose();
        decode_task_success_entry(k, m[k])
    }
}

impl TaskSuccess {
    /// The name under which compile output is stored.
    pub fn compile_attribute_name() -> (r: &'static str)
        ensures
            r@ == "Compile"@,
    {
        "Compile"
    }

    /// The name under which verification output is stored.
    pub fn verify_attribute_name() -> (r: &'static str)
        ensures
            r@ == "Verify"@,
    {
        "Verify"
    }

    /// Stores this success as an attribute map.
    pub fn into_attribute_map(self) -> (r: AttributeMap)
        ensures
            r@ == encode_task_success(self@),
    {
        match self {
            TaskSuccess::Compile { artifacts_info } => {
                let ghost s = artifacts_view(artifacts_info@);
                let mut rest = artifacts_info;
                let mut out: Vec<AttributeValue> = Vec::new();
                let ghost total = rest@.len();
                while rest.len() > 0
                    invariant
                        artifacts_view(rest@) == s.subrange(0, rest@.len() as int),
                        rest@.len() <= s.len(),
                        out@.len() == s.len() - rest@.len(),
                        forall|j: int|
                            0 <= j < out@.len() ==> #[trigger] value_model(out@[j])
                                == encode_artifact_info(s[rest@.len() + j]),
                    decreases rest@.len(),
                {
                    let ghost r0 = rest@;
                    let a = rest.pop().unwrap();
                    proof {
                        assert(artifacts_view(r0)[r0.len() - 1] == a@);
                        assert(artifacts_view(rest@) =~= artifacts_view(r0).subrange(0, rest@.len() as int));
                    }
                    let ghost o0 = out@;
                    out.insert(0, a.into_attribute_value());
                    proof {
                        assert forall|j: int| 0 <= j < out@.len() implies #[trigger] value_model(
                            out@[j],
                        ) == encode_artifact_info(s[rest@.len() + j]) by {
                            if j > 0 {
                                assert(out@[j] == o0[j - 1]);
                            }
                        }
                    }
                }
                let list = AttributeValue::L(out);
                proof {
                    assert(crate::attribute::list_model(out@) =~= encode_artifacts(s)) by {
                        lemma_list_model_pointwise(out@);
                    }
                }
                AttributeMap::single(String::from_str(TaskSuccess::compile_attribute_name()), list)
            },
            TaskSuccess::Verify { message } => {
                AttributeMap::single(
                    String::from_str(TaskSuccess::verify_attribute_name()),
                    AttributeValue::S(message),
                )
            },
        }
    }

    /// Reads a success from an attribute map.
    pub fn try_from_attribute_map(value: &AttributeMap) -> (r: Result<TaskSuccess, ItemError>)
        ensures
            same_outcome(r, decode_task_success(value@)),
    {
        let n = value.len();
        if n == 0 {
            return Err(ItemError::FormatError(String::from_str("No keys for TaskResult")));
        }
        if n != 1 {
            return Err(ItemError::FormatError(String::from_str("More than 1 key in TaskSuccess")));
        }
        let (key, v) = value.entry_at(0);
        proof {
            lemma_single_key(value@, key@);
        }
        if str_eq(key.as_str(), "Compile") {
            match v {
                AttributeValue::L(list) => {
                    let mut infos: Vec<ArtifactInfo> = Vec::new();
                    let mut i: usize = 0;
                    let ghost lm = crate::attribute::list_model(list@);
                    proof {
                        lemma_list_model_pointwise(list@);
                        assert(lm.subrange(0, 0) =~= Seq::<Attr>::empty());
                        assert(artifacts_view(infos@) =~= Seq::<ArtifactInfoView>::empty());
                        assert(decode_task_success(value@) == decode_task_success_entry(
                            "Compile"@,
                            Attr::L(lm),
                        ));
                    }
                    while i < list.len()
                        invariant
                            decode_task_success(value@) == decode_task_success_entry(
                                "Compile"@,
                                Attr::L(lm),
                            ),
                            lm == crate::attribute::list_model(list@),
                            lm.len() == list@.len(),
                            forall|j: int| 0 <= j < list@.len() ==> #[trigger] lm[j] == value_model(list@[j]),
                            i <= list@.len(),
                            decode_artifacts(lm.subrange(0, i as int)) == Ok::<
                                Seq<ArtifactInfoView>,
                                ItemErrorView,
                            >(artifacts_view(infos@)),
                        decreases list@.len() - i,
                    {
                        let a = ArtifactInfo::try_from_attribute_value(&list[i]);
                        proof {
                            assert(lm[i as int] == value_model(list@[i as int]));
                            lemma_decode_artifacts_push(lm.subrange(0, i as int), lm[i as int]);
                            assert(lm.subrange(0, i + 1) =~= lm.subrange(0, i as int).push(lm[i as int]));
                        }
                        assert(same_outcome(a, decode_artifact_info(lm[i as int])));
                        match a {
                            Ok(x) => {
                                let ghost i0 = infos@;
                                let ghost xv = x@;
                                assert(decode_artifact_info(lm[i as int]) == Ok::<ArtifactInfoView, ItemErrorView>(xv));
                                infos.push(x);
                                proof {
                                    assert(artifacts_view(infos@) =~= artifacts_view(i0).push(xv));
                                    assert(decode_artifacts(lm.subrange(0, i + 1)) == Ok::<Seq<ArtifactInfoView>, ItemErrorView>(artifacts_view(i0).push(xv)));
                                }
                            },
                            Err(e) => {
                                proof {
                                    lemma_decode_artifacts_prefix_err(lm, i as int);
                                    lemma_decode_artifacts_err_extends(lm, i + 1);
                                }
                                return Err(e);
                            },
                        }
                        i = i + 1;
                    }
                    assert(lm.subrange(0, i as int) =~= lm);
                    Ok(TaskSuccess::Compile { artifacts_info: infos })
                },
                _ => Err(ItemError::FormatError(String::from_str("invalid type"))),
            }
        } else if str_eq(key.as_str(), "Verify") {
            match v {
                AttributeValue::S(message) => Ok(TaskSuccess::Verify { message: message.clone() }),
                _ => Err(ItemError::FormatError(String::from_str("invalid type"))),
            }
        } else {
            let mut s = String::from_str("Invalid key in TaskSuccess: ");
            s.append(key.as_str());
            Err(ItemError::FormatError(s))
        }
    }
}

proof fn lemma_list_model_pointwise(s: Seq<AttributeValue>)
    ensures
        crate::attribute::list_model(s).len() == s.len(),
        forall|j: int|
            0 <= j < s.len() ==> #[trigger] crate::attribute::list_model(s)[j] == value_model(s[j]),
    decreases s.len(),
{
    if s.len() > 0 {
        let p = s.subrange(0, s.len() - 1);
        lemma_list_model_pointwise(p);
        assert forall|j: int| 0 <= j < s.len() implies #[trigger] crate::attribute::list_model(s)[j]
            == value_model(s[j]) by {
            if j < s.len() - 1 {
                assert(p[j] == s[j]);
            }
        }
    }
}

proof fn lemma_decode_artifacts_push(s: Seq<Attr>, a: Attr)
    ensures
        decode_artifacts(s.push(a)) == (match decode_artifacts(s) {
            Err(e) => Err(e),
            Ok(v) => match decode_artifact_info(a) {
                Err(e) => Err(e),
                Ok(x) => Ok::<Seq<ArtifactInfoView>, ItemErrorView>(v.push(x)),
            },
        }),
    decreases s.len(),
{
    if s.len() == 0 {
        assert(s.push(a).drop_first() =~= Seq::<Attr>::empty());
        assert(s.push(a)[0] == a);
        if let Ok(x) = decode_artifact_info(a) {
            assert(seq![x] + Seq::<ArtifactInfoView>::empty() =~= Seq::<ArtifactInfoView>::empty().push(x));
        }
    } else {
        assert(s.push(a).drop_first() =~= s.drop_first().push(a));
        assert(s.push(a)[0] == s[0]);
        lemma_decode_artifacts_push(s.drop_first(), a);
        if let Ok(h) = decode_artifact_info(s[0]) {
            if let Ok(r) = decode_artifacts(s.drop_first()) {
                if let Ok(x) = decode_artifact_info(a) {
                    assert(seq![h] + r.push(x) =~= (seq![h] + r).push(x));
                }
            }
        }
    }
}

proof fn lemma_decode_artifacts_prefix_err(s: Seq<Attr>, i: int)
    requires
        0 <= i < s.len(),
        decode_artifacts(s.subrange(0, i)) is Ok,
        decode_artifact_info(s[i]) is Err,
    ensures
        decode_artifacts(s.subrange(0, i + 1)) == Err::<Seq<ArtifactInfoView>, ItemErrorView>(
            decode_artifact_info(s[i])->Err_0,
        ),
{
    lemma_decode_artifacts_push(s.subrange(0, i), s[i]);
    assert(s.subrange(0, i + 1) =~= s.subrange(0, i).push(s[i]));
}

proof fn lemma_decode_artifacts_err_extends(s: Seq<Attr>, k: int)
    requires
        0 <= k <= s.len(),
        decode_artifacts(s.subrange(0, k)) is Err,
    ensures
        decode_artifacts(s) == decode_artifacts(s.subrange(0, k)),
    decreases s.len() - k,
{
    if k == s.len() {
        assert(s.subrange(0, k) =~= s);
    } else {
        lemma_decode_artifacts_push(s.subrange(0, k), s[k]);
        assert(s.subrange(0, k + 1) =~= s.subrange(0, k).push(s[k]));
        lemma_decode_artifacts_err_extends(s, k + 1);
    }
}

/// Reading back a stored success gives the success.
pub proof fn lemma_task_success_roundtrip(t: TaskSuccessView)
    ensures
        decode_task_success(encode_task_success(t)) == Ok::<TaskSuccessView, ItemErrorView>(t),
{
    reveal_strlit("Compile");
    reveal_strlit("Verify");
    assert("Compile"@.len() != "Verify"@.len());
    let m = encode_task_success(t);
    match t {
        TaskSuccessView::Compile(infos) => {
            lemma_single_key(m, "Compile"@);
            lemma_artifacts_roundtrip(infos);
        },
        TaskSuccessView::Verify(msg) => {
            lemma_single_key(m, "Verify"@);
        },
    }
}

/// How a task failed.
#[derive(Debug, Clone, PartialEq)]
pub struct TaskFailure {
    pub error_type: ServerError,
    pub message: String,
}

/// The content of a [`TaskFailure`].
pub struct TaskFailureView {
    pub error_type: ServerError,
    pub message: Seq<char>,
}

impl View for TaskFailure {
    type V = TaskFailureView;

    open spec fn view(&self) -> TaskFailureView {
        TaskFailureView { error_type: self.error_type, message: self.message@ }
    }
}

/// How a failure is stored as a value: a string set of its kind and message.
pub open spec fn encode_task_failure_value(f: TaskFailureView) -> Attr {
    Attr::Ss(seq![server_error_name(f.error_type), f.message])
}

/// How a failure is stored as a map: one entry named `Failure`.
pub open spec fn encode_task_failure(f: TaskFailureView) -> Map<Seq<char>, Attr> {
    Map::empty().insert("Failure"@, encode_task_failure_value(f))
}

/// The failure that a stored value holds.
pub open spec fn decode_task_failure(v: Attr) -> Result<TaskFailureView, ItemErrorView> {
    match v {
        Attr::Ss(d) => if d.len() != 2 {
            Err(format_error("Invalid Failure values format"@))
        } else {
            match server_error_from_name(d[0]) {
                None => Err(format_error(d[0])),
                Some(e) => Ok(TaskFailureView { error_type: e, message: d[1] }),
            }
        },
        _ => Err(format_error("invalid type"@)),
    }
}

impl TaskFailure {
    /// The name under which a failure is stored.
    pub fn attribute_name() -> (r: &'static str)
        ensures
            r@ == "Failure"@,
    {
        "Failure"
    }

    /// Stores this failure as an attribute map.
    pub fn into_attribute_map(self) -> (r: AttributeMap)
        ensures
            r@ == encode_task_failure(self@),
    {
        let mut v: Vec<String> = Vec::new();
        v.push(String::from_str(self.error_type.as_str()));
        v.push(self.message);
        assert(strings_view(v@) =~= seq![server_error_name(self.error_type), self.message@]);
        AttributeMap::single(String::from_str(TaskFailure::attribute_name()), AttributeValue::Ss(v))
    }

    /// Reads a failure from an attribute value.
    pub fn try_from_attribute_value(value: &AttributeValue) -> (r: Result<TaskFailure, ItemError>)
        ensures
            same_outcome(r, decode_task_failure(value@)),
    {
        match value {
            AttributeValue::Ss(data) => {
                if data.len() != 2 {
                    return Err(
                        ItemError::FormatError(String::from_str("Invalid Failure values format")),
                    );
                }
                proof {
                    assert(strings_view(data@)[0] == data@[0]@);
                    assert(strings_view(data@)[1] == data@[1]@);
                }
                match ServerError::try_from_str(data[0].as_str()) {
                    Ok(error_type) => Ok(TaskFailure { error_type, message: data[1].clone() }),
                    Err(s) => Err(ItemError::FormatError(s)),
                }
            },
            _ => Err(ItemError::FormatError(String::from_str("invalid type"))),
        }
    }
}

/// Reading back a stored failure gives the failure.
pub proof fn lemma_task_failure_roundtrip(f: TaskFailureView)
    ensures
        decode_task_failure(encode_task_failure_value(f)) == Ok::<TaskFailureView, ItemErrorView>(f),
{
    crate::types::errors::lemma_server_error_name_roundtrip(f.error_type);
}

/// The result of a finished task.
#[derive(Debug, Clone, PartialEq)]
pub enum TaskResult {
    Success(TaskSuccess),
    Failure(TaskFailure),
}

/// The content of a [`TaskResult`].
pub enum TaskResultView {
    Success(TaskSuccessView),
    Failure(TaskFailureView),
}

impl View for TaskResult {
    type V = TaskResultView;

    open spec fn view(&self) -> TaskResultView {
        match self {
            TaskResult::Success(s) => TaskResultView::Success(s@),
            TaskResult::Failure(f) => TaskResultView::Failure(f@),
        }
    }
}

/// How a result is stored: one entry, `Success` holding the success map or
/// `Failure` holding the failure.
pub open spec fn encode_task_result(r: TaskResultView) -> Map<Seq<char>, Attr> {
    match r {
        TaskResultView::Success(t) => Map::empty().insert(
            "Success"@,
            Attr::M(encode_task_success(t)),
        ),
        TaskResultView::Failure(f) => encode_task_failure(f),
    }
}

/// The result stored under the name `k` as value `v`.
pub open spec fn decode_task_result_entry(k: Seq<char>, v: Attr) -> Result<
    TaskResultView,
    ItemErrorView,
> {
    if k == "Success"@ {
        match v {
            Attr::M(inner) => match decode_task_success(inner) {
                Ok(t) => Ok(TaskResultView::Success(t)),
                Err(e) => Err(e),
            },
            _ => Err(format_error("invalid type"@)),
        }
    } else if k == "Failure"@ {
        match decode_task_failure(v) {
            Ok(f) => Ok(TaskResultView::Failure(f)),
            Err(e) => Err(e),
        }
    } else {
        Err(format_error("Invalid key in TaskResult: "@ + k))
    }
}

/// The result that a stored map holds: exactly one entry is expected.
pub open spec fn decode_task_result(m: Map<Seq<char>, Attr>) -> Result<
    TaskResultView,
    ItemErrorView,
> {
    if m.len() == 0 {
        Err(format_error("No keys for TaskResult"@))
    } else if m.len() != 1 {
        Err(format_error("More than 1 key in TaskSuccess"@))
    } else {
        let k = m.dom().choose();
        decode_task_result_entry(k, m[k])
    }
}

/// How a result reads for people.
pub open spec fn task_result_display(r: TaskResultView) -> Seq<char> {
    match r {
        TaskResultView::Success(_) => "Success"@,
        TaskResultView::Failure(f) => "Failure: "@ + f.message,
    }
}

impl TaskResult {
    /// The name under which a result is stored in an item.
    pub fn attribute_name() -> (r: &'static str)
        ensures
            r@ == "Data"@,
    {
        "Data"
    }

    /// The name under which a success is stored.
    pub fn success_attribute_name() -> (r: &'static str)
        ensures
            r@ == "Success"@,
    {
        "Success"
    }

    /// The name under which a failure is stored.
    pub fn failure_attribute_name() -> (r: &'static str)
        ensures
            r@ == "Failure"@,
    {
        "Failure"
    }

    /// How this result reads for people.
    pub fn to_display_string(&self) -> (r: String)
        ensures
            r@ == task_result_display(self@),
    {
        match self {
            TaskResult::Success(_) => String::from_str("Success"),
            TaskResult::Failure(f) => {
                let mut s = String::from_str("Failure: ");
                s.append(f.message.as_str());
                s
            },
        }
    }

    /// Stores this result as an attribute map.
    pub fn into_attribute_map(self) -> (r: AttributeMap)
        ensures
            r@ == encode_task_result(self@),
    {
        match self {
            TaskResult::Success(t) => AttributeMap::single(
                String::from_str(TaskResult::success_attribute_name()),
                AttributeValue::M(t.into_attribute_map()),
            ),
            TaskResult::Failure(f) => f.into_attribute_map(),
        }
    }

    /// Reads a result from an attribute map.
    pub fn try_from_attribute_map(value: &AttributeMap) -> (r: Result<TaskResult, ItemError>)
        ensures
            same_outcome(r, decode_task_result(value@)),
    {
        let n = value.len();
        if n == 0 {
            return Err(ItemError::FormatError(String::from_str("No keys for TaskResult")));
        }
        if n != 1 {
            return Err(ItemError::FormatError(String::from_str("More than 1 key in TaskSuccess")));
        }
        let (key, v) = value.entry_at(0);
        proof {
            lemma_single_key(value@, key@);
        }
        if str_eq(key.as_str(), "Success") {
            match v {
                AttributeValue::M(data) => {
                    let t = TaskSuccess::try_from_attribute_map(data)?;
                    Ok(TaskResult::Success(t))
                },
                _ => Err(ItemError::FormatError(String::from_str("invalid type"))),
            }
        } else if str_eq(key.as_str(), "Failure") {
            let f = TaskFailure::try_from_attribute_value(v)?;
            Ok(TaskResult::Failure(f))
        } else {
            let mut s = String::from_str("Invalid key in TaskResult: ");
            s.append(key.as_str());
            Err(ItemError::FormatError(s))
        }
    }
}

/// Reading back a stored result gives the result.
pub proof fn lemma_task_result_roundtrip(r: TaskResultView)
    ensures
        decode_task_result(encode_task_result(r)) == Ok::<TaskResultView, ItemErrorView>(r),
{
    reveal_strlit("Success");
    reveal_strlit("Failure");
    assert("Success"@.len() == "Failure"@.len() ==> "Success"@[0] != "Failure"@[0]);
    let m = encode_task_result(r);
    match r {
        TaskResultView::Success(t) => {
            lemma_single_key(m, "Success"@);
            lemma_task_success_roundtrip(t);
        },
        TaskResultView::Failure(f) => {
            lemma_single_key(m, "Failure"@);
            lemma_task_failure_roundtrip(f);
        },
    }
}

} // verus!
