//! The status of a task and the database item that records it.
use vstd::prelude::*;

use crate::attribute::{Attr, AttributeMap, AttributeValue};
use crate::clock::{four_digit_year, rfc3339_parse, rfc3339_text, UtcTime};
use crate::ident::{parse_uuid, uuid_parse, uuid_text, uuid_to_string};
use crate::text::{decimal, decimal_string, lemma_parse_decimal, parse_u32, parse_u32_spec};
use crate::types::errors::{
    absent_attribute_message, invalid_attribute_type_message, ItemError, ItemErrorView,
};
use crate::types::task_result::{
    decode_task_result, encode_task_result, format_error, lemma_task_result_roundtrip,
    same_outcome, task_result_display, TaskResult, TaskResultView,
};

verus! {

/// Where a task stands.
#[derive(Debug, Clone, PartialEq)]
pub enum Status {
    Pending,
    InProgress,
    Done(TaskResult),
}

/// The content of a [`Status`].
pub enum StatusView {
    Pending,
    InProgress,
    Done(TaskResultView),
}

impl View for Status {
    type V = StatusView;

    open spec fn view(&self) -> StatusView {
        match self {
            Status::Pending => StatusView::Pending,
            Status::InProgress => StatusView::InProgress,
            Status::Done(r) => StatusView::Done(r@),
        }
    }
}

/// The number a status is stored as.
pub open spec fn status_code(s: StatusView) -> u32 {
    match s {
        StatusView::Pending => 0,
        StatusView::InProgress => 1,
        StatusView::Done(TaskResultView::Success(_)) => 2,
        StatusView::Done(TaskResultView::Failure(_)) => 3,
    }
}

/// How a status reads for people.
pub open spec fn status_display(s: StatusView) -> Seq<char> {
    match s {
        StatusView::Pending => "Pending"@,
        StatusView::InProgress => "InProgress"@,
        StatusView::Done(r) => task_result_display(r),
    }
}

/// How a status is stored: its number under `Status`, and for a finished
/// task its result under `Data`.
pub open spec fn encode_status(s: StatusView) -> Map<Seq<char>, Attr> {
    let m = Map::empty().insert("Status"@, Attr::N(decimal(status_code(s) as nat)));
    match s {
        StatusView::Done(r) => m.insert("Data"@, Attr::M(encode_task_result(r))),
        _ => m,
    }
}

/// The status stored in a map whose `Status` attribute reads as the number `v`.
pub open spec fn decode_status_number(m: Map<Seq<char>, Attr>, v: int) -> Result<
    StatusView,
    ItemErrorView,
> {
    if v == 0 {
        Ok(StatusView::Pending)
    } else if v == 1 {
        Ok(StatusView::InProgress)
    } else if v == 2 || v == 3 {
        if !m.contains_key("Data"@) {
            Err(format_error(absent_attribute_message("Data"@)))
        } else {
            match m["Data"@] {
                Attr::M(inner) => match decode_task_result(inner) {
                    Err(e) => Err(e),
                    Ok(r) => if (v == 2 && r is Success) || (v == 3 && r is Failure) {
                        Ok(StatusView::Done(r))
                    } else {
                        Err(
                            format_error(
                                "status is "@ + decimal(v as nat) + ", while actual value: "@
                                    + task_result_display(r),
                            ),
                        )
                    },
                },
                _ => Err(format_error(invalid_attribute_type_message("Data"@, "map"@))),
            }
        }
    } else {
        Err(format_error("Status value is: "@ + decimal(v as nat)))
    }
}

/// The status that a stored map holds.
pub open spec fn decode_status(m: Map<Seq<char>, Attr>) -> Result<StatusView, ItemErrorView> {
    if !m.contains_key("Status"@) {
        Err(format_error(absent_attribute_message("Status"@)))
    } else {
        match m["Status"@] {
            Attr::N(t) => match parse_u32_spec(t) {
                Err(k) => Err(ItemErrorView::NumParseError(k)),
                Ok(v) => decode_status_number(m, v),
            },
            _ => Err(format_error(invalid_attribute_type_message("Status"@, "number"@))),
        }
    }
}

impl Status {
    /// The name under which a status is stored.
    pub fn attribute_name() -> (r: &'static str)
        ensures
            r@ == "Status"@,
    {
        "Status"
    }

    /// The number this status is stored as.
    pub fn code(&self) -> (r: u32)
        ensures
            r == status_code(self@),
    {
        match self {
            Status::Pending => 0,
            Status::InProgress => 1,
            Status::Done(TaskResult::Success(_)) => 2,
            Status::Done(TaskResult::Failure(_)) => 3,
        }
    }

    /// How this status reads for people.
    pub fn to_display_string(&self) -> (r: String)
        ensures
            r@ == status_display(self@),
    {
        match self {
            Status::Pending => String::from_str("Pending"),
            Status::InProgress => String::from_str("InProgress"),
            Status::Done(r) => r.to_display_string(),
        }
    }

    /// Stores this status as an attribute map.
    pub fn into_attribute_map(self) -> (r: AttributeMap)
        ensures
            r@ == encode_status(self@),
    {
        let code = self.code();
        let mut map = AttributeMap::single(
            String::from_str(Status::attribute_name()),
            AttributeValue::N(decimal_string(code as u64)),
        );
        match self {
            Status::Done(task_result) => {
                map.insert(
                    String::from_str(TaskResult::attribute_name()),
                    AttributeValue::M(task_result.into_attribute_map()),
                );
            },
            _ => {},
        }
        map
    }

    /// Reads a status from an attribute map.
    pub fn try_from_attribute_map(value: &AttributeMap) -> (r: Result<Status, ItemError>)
        ensures
            same_outcome(r, decode_status(value@)),
    {
        let status = match value.get(Status::attribute_name()) {
            Some(v) => v,
            None => {
                return Err(ItemError::absent_attribute_error(Status::attribute_name()));
            },
        };
        let text = match status {
            AttributeValue::N(t) => t,
            _ => {
                return Err(ItemError::invalid_attribute_type(Status::attribute_name(), "number"));
            },
        };
        let num = match parse_u32(text.as_str()) {
            Ok(n) => n,
            Err(k) => {
                return Err(ItemError::NumParseError(k));
            },
        };
        if num == 0 {
            Ok(Status::Pending)
        } else if num == 1 {
            Ok(Status::InProgress)
        } else if num == 2 || num == 3 {
            let data = match value.get(TaskResult::attribute_name()) {
                Some(d) => d,
                None => {
                    return Err(ItemError::absent_attribute_error(TaskResult::attribute_name()));
                },
            };
            let inner = match data {
                AttributeValue::M(m) => m,
                _ => {
                    return Err(
                        ItemError::invalid_attribute_type(TaskResult::attribute_name(), "map"),
                    );
                },
            };
            let task_result = TaskResult::try_from_attribute_map(inner)?;
            let matches = match &task_result {
                TaskResult::Success(_) => num == 2,
                TaskResult::Failure(_) => num == 3,
            };
            if matches {
                Ok(Status::Done(task_result))
            } else {
                let mut s = String::from_str("status is ");
                let n = decimal_string(num as u64);
                s.append(n.as_str());
                s.append(", while actual value: ");
                let d = task_result.to_display_string();
                s.append(d.as_str());
                Err(ItemError::FormatError(s))
            }
        } else {
            let mut s = String::from_str("Status value is: ");
            let n = decimal_string(num as u64);
            s.append(n.as_str());
            Err(ItemError::FormatError(s))
        }
    }
}

/// Reading back a stored status gives the status.
pub proof fn lemma_status_roundtrip(s: StatusView)
    ensures
        decode_status(encode_status(s)) == Ok::<StatusView, ItemErrorView>(s),
{
    reveal_strlit("Status");
    reveal_strlit("Data");
    assert("Status"@.len() != "Data"@.len());
    lemma_parse_decimal(status_code(s));
    if let StatusView::Done(r) = s {
        lemma_task_result_roundtrip(r);
    }
}

/// A task as the database records it.
#[derive(Debug, Clone, PartialEq)]
pub struct Item {
    pub id: u128,
    pub status: Status,
    pub created_at: UtcTime,
}

/// The content of an [`Item`].
pub struct ItemView {
    pub id: u128,
    pub status: StatusView,
    pub created_at: (i64, u32),
}

impl View for Item {
    type V = ItemView;

    open spec fn view(&self) -> ItemView {
        ItemView { id: self.id, status: self.status@, created_at: self.created_at@ }
    }
}

/// How an item is stored: its id and creation time as text, and its status.
pub open spec fn encode_item(i: ItemView) -> Map<Seq<char>, Attr> {
    Map::empty().insert("ID"@, Attr::S(uuid_text(i.id))).insert(
        "CreatedAt"@,
        Attr::S(rfc3339_text(i.created_at.0, i.created_at.1)->Some_0),
    ).union_prefer_right(encode_status(i.status))
}

/// The item that a stored map holds.
pub open spec fn decode_item(m: Map<Seq<char>, Attr>) -> Result<ItemView, ItemErrorView> {
    if !m.contains_key("ID"@) {
        Err(format_error(absent_attribute_message("ID"@)))
    } else {
        match m["ID"@] {
            Attr::S(t) => match uuid_parse(t) {
                Err(msg) => Err(format_error(msg)),
                Ok(id) => match decode_status(m) {
                    Err(e) => Err(e),
                    Ok(status) => if !m.contains_key("CreatedAt"@) {
                        Err(format_error(absent_attribute_message("CreatedAt"@)))
                    } else {
                        match m["CreatedAt"@] {
                            Attr::S(c) => match rfc3339_parse(c) {
                                Err(msg) => Err(ItemErrorView::DataParseError(msg)),
                                Ok(t) => Ok(ItemView { id, status, created_at: t }),
                            },
                            _ => Err(
                                format_error(
                                    invalid_attribute_type_message("CreatedAt"@, "string"@),
                                ),
                            ),
                        }
                    },
                },
            },
            _ => Err(format_error(invalid_attribute_type_message("ID"@, "string"@))),
        }
    }
}

impl Item {
    /// The name under which the status is stored.
    pub fn status_attribute_name() -> (r: &'static str)
        ensures
            r@ == "Status"@,
    {
        Status::attribute_name()
    }

    /// The name under which the id is stored.
    pub fn id_attribute_name() -> (r: &'static str)
        ensures
            r@ == "ID"@,
    {
        "ID"
    }

    /// The name under which the creation time is stored.
    pub fn created_at_attribute_name() -> (r: &'static str)
        ensures
            r@ == "CreatedAt"@,
    {
        "CreatedAt"
    }

    /// The name of the table's key.
    pub fn primary_key_name() -> (r: &'static str)
        ensures
            r@ == "ID"@,
    {
        Self::id_attribute_name()
    }

    /// Stores this item as an attribute map.
    pub fn into_attribute_map(self) -> (r: AttributeMap)
        ensures
            r@ == encode_item(self@),
            four_digit_year(self@.created_at.0) ==> decode_item(r@) == Ok::<ItemView, ItemErrorView>(
                self@,
            ),
    {
        let ghost v = self@;
        let id_text = uuid_to_string(self.id);
        let time_text = self.created_at.to_rfc3339();
        let mut map = AttributeMap::single(
            String::from_str(Item::id_attribute_name()),
            AttributeValue::S(id_text),
        );
        map.insert(String::from_str(Item::created_at_attribute_name()), AttributeValue::S(time_text));
        map.extend(self.status.into_attribute_map());
        proof {
            if four_digit_year(v.created_at.0) {
                lemma_item_roundtrip(v);
            }
        }
        map
    }

    /// Reads an item from an attribute map.
    pub fn try_from_attribute_map(value: &AttributeMap) -> (r: Result<Item, ItemError>)
        ensures
            same_outcome(r, decode_item(value@)),
    {
        let id_value = match value.get(Item::id_attribute_name()) {
            Some(v) => v,
            None => {
                return Err(ItemError::absent_attribute_error(Item::id_attribute_name()));
            },
        };
        let id_text = match id_value {
            AttributeValue::S(t) => t,
            _ => {
                return Err(ItemError::invalid_attribute_type(Item::id_attribute_name(), "string"));
            },
        };
        let id = match parse_uuid(id_text.as_str()) {
            Ok(u) => u,
            Err(msg) => {
                return Err(ItemError::FormatError(msg));
            },
        };
        let status = Status::try_from_attribute_map(value)?;
        let created_value = match value.get(Item::created_at_attribute_name()) {
            Some(v) => v,
            None => {
                return Err(ItemError::absent_attribute_error(Item::created_at_attribute_name()));
            },
        };
        let created_text = match created_value {
            AttributeValue::S(t) => t,
            _ => {
                return Err(
                    ItemError::invalid_attribute_type(Item::created_at_attribute_name(), "string"),
                );
            },
        };
        let created_at = match UtcTime::parse_from_rfc3339(created_text.as_str()) {
            Ok(t) => t,
            Err(msg) => {
                return Err(ItemError::DataParseError(msg));
            },
        };
        Ok(Item { id, status, created_at })
    }
}

proof fn lemma_item_roundtrip(i: ItemView)
    requires
        rfc3339_parse(rfc3339_text(i.created_at.0, i.created_at.1)->Some_0) == Ok::<
            (i64, u32),
            Seq<char>,
        >(i.created_at),
        uuid_parse(uuid_text(i.id)) == Ok::<u128, Seq<char>>(i.id),
    ensures
        decode_item(encode_item(i)) == Ok::<ItemView, ItemErrorView>(i),
{
    reveal_strlit("Status");
    reveal_strlit("Data");
    reveal_strlit("ID");
    reveal_strlit("CreatedAt");
    assert("Status"@.len() != "Data"@.len());
    assert("Status"@.len() != "ID"@.len());
    assert("Status"@.len() != "CreatedAt"@.len());
    assert("Data"@.len() != "ID"@.len());
    assert("Data"@.len() != "CreatedAt"@.len());
    assert("ID"@.len() != "CreatedAt"@.len());
    let m = encode_item(i);
    let sm = encode_status(i.status);
    assert(m["ID"@] == Attr::S(uuid_text(i.id)));
    assert(m["CreatedAt"@] == Attr::S(rfc3339_text(i.created_at.0, i.created_at.1)->Some_0));
    assert(m.contains_key("Status"@) && m["Status"@] == sm["Status"@]);
    assert(sm.contains_key("Data"@) ==> m.contains_key("Data"@) && m["Data"@] == sm["Data"@]);
    assert(!sm.contains_key("Data"@) ==> !m.contains_key("Data"@));
    lemma_status_roundtrip(i.status);
    lemma_parse_decimal(status_code(i.status));
}

} // verus!
