//! The two request handlers in front of the worker: one registers a
//! compile request and queues it, the other reports where a task stands.
use vstd::prelude::*;

use crate::attribute::AttributeMap;
use crate::clock::{four_digit_year, UtcTime};
use crate::ident::{parse_uuid, uuid_parse};
use crate::text::{after_last, hex_digits, split_last};
use crate::types::errors::{item_error_text, ItemErrorView};
use crate::types::item::{decode_item, encode_item, Item, ItemView, Status, StatusView};
use crate::types::task_result::TaskResult;

verus! {

/// The queue that compile requests go to unless configured otherwise.
pub const QUEUE_URL_DEFAULT: &'static str = "https://sqs.ap-southeast-2.amazonaws.com/266735844848/zksync-sqs";

/// The tasks table unless configured otherwise.
pub const TABLE_NAME_DEFAULT: &'static str = "zksync-table";

/// The file store unless configured otherwise.
pub const BUCKET_NAME_DEFAULT: &'static str = "zksync-compilation-s3";

/// The answer to a compile request with no uploaded files.
pub const NO_OBJECTS_TO_COMPILE_ERROR: &'static str = "There are no objects to compile";

/// The answer to a second compile request for the same task.
pub const RECOMPILATION_ATTEMPT_ERROR: &'static str = "Recompilation attempt";

/// The answer to a poll for an unknown task.
pub const NO_SUCH_ITEM: &'static str = "No such item";

/// The condition under which a task is registered: no task with its id
/// exists yet.
pub const REGISTRATION_CONDITION: &'static str = "attribute_not_exists(ID)";

/// Why a request was refused, with the text answered.
#[derive(Debug, Clone, PartialEq)]
pub enum LambdaError {
    BadRequestError(String),
    ConflictError(String),
    NotFoundError(String),
    InternalError(String),
}

/// The HTTP status of each refusal.
pub open spec fn error_status(e: LambdaError) -> u16 {
    match e {
        LambdaError::BadRequestError(_) => 400,
        LambdaError::ConflictError(_) => 409,
        LambdaError::NotFoundError(_) => 404,
        LambdaError::InternalError(_) => 500,
    }
}

/// The text of a refusal.
pub open spec fn error_text(e: LambdaError) -> Seq<char> {
    match e {
        LambdaError::BadRequestError(s) => s@,
        LambdaError::ConflictError(s) => s@,
        LambdaError::NotFoundError(s) => s@,
        LambdaError::InternalError(s) => s@,
    }
}

/// How a character is written inside a JSON string: a quote and a
/// backslash get a backslash before them; backspace, tab, line feed, form
/// feed and carriage return get their short escapes; any other control
/// character below 0x20 is written `\u00` and two lower-case hexadecimal
/// digits; every other character stands as it is.
pub open spec fn json_escape(c: char) -> Seq<char> {
    if c == '"' {
        seq!['\\', '"']
    } else if c == '\\' {
        seq!['\\', '\\']
    } else if c == '\u{8}' {
        seq!['\\', 'b']
    } else if c == '\t' {
        seq!['\\', 't']
    } else if c == '\n' {
        seq!['\\', 'n']
    } else if c == '\u{c}' {
        seq!['\\', 'f']
    } else if c == '\r' {
        seq!['\\', 'r']
    } else if (c as u32) < 0x20 {
        seq!['\\', 'u', '0', '0', hex_digits()[((c as u32) / 16) as int], hex_digits()[((c as u32) % 16) as int]]
    } else {
        seq![c]
    }
}

/// The characters of `s`, each written as inside a JSON string.
pub open spec fn json_escape_all(s: Seq<char>) -> Seq<char>
    decreases s.len(),
{
    if s.len() == 0 {
        Seq::empty()
    } else {
        json_escape_all(s.drop_last()) + json_escape(s.last())
    }
}

/// The JSON string literal for the text `s`, as `serde_json` writes it.
pub open spec fn json_quoted(s: Seq<char>) -> Seq<char> {
    seq!['"'] + json_escape_all(s) + seq!['"']
}

/// Calls `serde_json`'s writer on a JSON string value
/// (`Value::String(..).to_string()`). Claimed: the text is `json_quoted` of
/// the input, as the escape table of `serde_json`'s serializer gives it (a
/// quote and a backslash escaped, the short escapes for backspace, tab, line
/// feed, form feed and carriage return, `\u00XX` in lower-case hexadecimal
/// for the other control characters below 0x20, every other character as
/// it is).
#[verifier::external_body]
fn quote_json(s: &str) -> (r: String)
    ensures
        r@ == json_quoted(s@),
{
    serde_json::Value::String(s.to_string()).to_string()
}

/// The JSON body of an error: an object whose one member `error` holds the
/// text.
pub open spec fn error_json(text: Seq<char>) -> Seq<char> {
    "{\"error\":"@ + json_quoted(text) + "}"@
}

/// The JSON body of an error.
pub fn error_string_to_json(error: &str) -> (r: String)
    ensures
        r@ == error_json(error@),
{
    let mut s = String::from_str("{\"error\":");
    let q = quote_json(error);
    s.append(q.as_str());
    s.append("}");
    s
}

impl LambdaError {
    /// The HTTP status of this refusal.
    pub fn status_code(&self) -> (r: u16)
        ensures
            r == error_status(*self),
    {
        match self {
            LambdaError::BadRequestError(_) => 400,
            LambdaError::ConflictError(_) => 409,
            LambdaError::NotFoundError(_) => 404,
            LambdaError::InternalError(_) => 500,
        }
    }

    /// The status and JSON body this refusal is answered with.
    pub fn into_response(self) -> (r: (u16, String))
        ensures
            r.0 == error_status(self),
            r.1@ == error_json(error_text(self)),
    {
        let code = self.status_code();
        let body = match &self {
            LambdaError::BadRequestError(s) => error_string_to_json(s.as_str()),
            LambdaError::ConflictError(s) => error_string_to_json(s.as_str()),
            LambdaError::NotFoundError(s) => error_string_to_json(s.as_str()),
            LambdaError::InternalError(s) => error_string_to_json(s.as_str()),
        };
        (code, body)
    }
}

/// Why the payload of a request could not be read.
#[derive(Debug, Clone, PartialEq)]
pub enum ExtractRequestError {
    EmptyPayloadError,
    PayloadError(String),
}

/// How a payload error reads.
pub open spec fn extract_error_text(e: ExtractRequestError) -> Seq<char> {
    match e {
        ExtractRequestError::EmptyPayloadError => "Request payload is empty"@,
        ExtractRequestError::PayloadError(s) => "PayloadError: "@ + s@,
    }
}

impl ExtractRequestError {
    /// How this error reads.
    pub fn to_display_string(&self) -> (r: String)
        ensures
            r@ == extract_error_text(*self),
    {
        match self {
            ExtractRequestError::EmptyPayloadError => String::from_str("Request payload is empty"),
            ExtractRequestError::PayloadError(s) => {
                let mut r = String::from_str("PayloadError: ");
                r.append(s.as_str());
                r
            },
        }
    }

    /// A payload error is a bad request, answered with its text.
    pub fn into_lambda_error(self) -> (r: LambdaError)
        ensures
            r matches LambdaError::BadRequestError(m) && m@ == extract_error_text(self),
    {
        LambdaError::BadRequestError(self.to_display_string())
    }
}

/// The folder of a task's uploaded files: `<id>/`.
pub fn sources_prefix(id: &str) -> (r: String)
    ensures
        r@ == id@ + "/"@,
{
    let mut s = String::from_str(id);
    s.append("/");
    s
}

/// A compile request is only queued when files were uploaded for it.
pub fn check_objects_present(has_contents: bool) -> (r: Result<(), LambdaError>)
    ensures
        has_contents ==> r is Ok,
        !has_contents ==> (r matches Err(LambdaError::BadRequestError(m)) && m@
            == NO_OBJECTS_TO_COMPILE_ERROR@),
{
    if has_contents {
        Ok(())
    } else {
        Err(LambdaError::BadRequestError(String::from_str(NO_OBJECTS_TO_COMPILE_ERROR)))
    }
}

/// The record that registers task `id`, pending since `created_at`.
pub fn registration_item(id: u128, created_at: UtcTime) -> (r: AttributeMap)
    ensures
        r@ == encode_item(ItemView { id, status: StatusView::Pending, created_at: created_at@ }),
        four_digit_year(created_at@.0) ==> decode_item(r@) == Ok::<ItemView, ItemErrorView>(
            ItemView { id, status: StatusView::Pending, created_at: created_at@ },
        ),
{
    Item { id, status: Status::Pending, created_at }.into_attribute_map()
}

/// How registering a task failed: a task with its id exists already, or
/// the table refused the request.
#[derive(Debug, Clone, PartialEq)]
pub enum RegistrationFailure {
    AlreadyExists,
    Other(String),
}

/// What a failed registration is answered with: a conflict for a second
/// request of the same task, an internal error otherwise.
pub fn registration_outcome(r: Result<(), RegistrationFailure>) -> (out: Result<(), LambdaError>)
    ensures
        match r {
            Ok(()) => out is Ok,
            Err(RegistrationFailure::AlreadyExists) => out matches Err(LambdaError::ConflictError(m))
                && m@ == RECOMPILATION_ATTEMPT_ERROR@,
            Err(RegistrationFailure::Other(m)) => out matches Err(LambdaError::InternalError(x)) && x@
                == m@,
        },
{
    match r {
        Ok(()) => Ok(()),
        Err(RegistrationFailure::AlreadyExists) => Err(
            LambdaError::ConflictError(String::from_str(RECOMPILATION_ATTEMPT_ERROR)),
        ),
        Err(RegistrationFailure::Other(m)) => Err(LambdaError::InternalError(m)),
    }
}

/// The task a poll asks about: the last segment of the request path, read
/// as a UUID; text that is not one is a bad request.
pub fn extract_uuid_from_path(path: &str) -> (r: Result<u128, LambdaError>)
    ensures
        match uuid_parse(after_last(path@, '/')) {
            Ok(u) => r == Ok::<u128, LambdaError>(u),
            Err(m) => r matches Err(LambdaError::BadRequestError(x)) && x@ == "Invalid UUID: "@ + m,
        },
{
    let segment = split_last(path, '/');
    match parse_uuid(segment.as_str()) {
        Ok(u) => Ok(u),
        Err(m) => {
            let mut s = String::from_str("Invalid UUID: ");
            s.append(m.as_str());
            Err(LambdaError::BadRequestError(s))
        },
    }
}

/// Where a polled task stands: still running, or done with a result.
#[derive(Debug, PartialEq)]
pub enum PollOutcome {
    Running,
    Done(TaskResult),
}

/// The answer to a poll, from the task's record: an unknown task is not
/// found, a record that holds no item is an internal error, a pending or
/// compiling task is running, and a finished task has its result.
pub fn poll_outcome(record: Option<&AttributeMap>) -> (r: Result<PollOutcome, LambdaError>)
    ensures
        match record {
            None => r matches Err(LambdaError::NotFoundError(m)) && m@ == NO_SUCH_ITEM@,
            Some(m) => match decode_item(m@) {
                Err(e) => r matches Err(LambdaError::InternalError(x)) && x@ == item_error_text(e),
                Ok(i) => match i.status {
                    StatusView::Done(t) => r matches Ok(PollOutcome::Done(x)) && x@ == t,
                    _ => r matches Ok(PollOutcome::Running),
                },
            },
        },
{
    let m = match record {
        None => {
            return Err(LambdaError::NotFoundError(String::from_str(NO_SUCH_ITEM)));
        },
        Some(m) => m,
    };
    match Item::try_from_attribute_map(m) {
        Err(e) => Err(LambdaError::InternalError(e.to_display_string())),
        Ok(item) => match item.status {
            Status::Done(t) => Ok(PollOutcome::Done(t)),
            _ => Ok(PollOutcome::Running),
        },
    }
}

/// The body answered while a task runs, with status 202.
pub fn running_body() -> (r: String)
    ensures
        r@ == "{\"status\":\"Running\"}"@,
{
    String::from_str("{\"status\":\"Running\"}")
}

} // verus!
