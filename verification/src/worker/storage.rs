//! The requests the worker makes of the tasks table and of the file store:
//! how a task's status and result are written, how old tasks are looked up,
//! and how a folder of stored files is listed, read and removed.
use vstd::prelude::*;

use crate::attribute::{strings_view, Attr, AttributeValue};
use crate::paths::{path_strip_prefix, strip_prefix};
use crate::text::{decimal, decimal_string};
use crate::types::item::{status_code, Item, Status};
use crate::types::task_result::TaskResult;

verus! {

/// A name, or a value, bound in an update expression.
pub type Binding<T> = (String, T);

/// A request to update one item of the tasks table: the item's key, the
/// update, an optional condition, and the names and values they use.
#[derive(Debug, PartialEq)]
pub struct UpdateRequest {
    pub key_name: String,
    pub key: AttributeValue,
    pub update_expression: String,
    pub condition_expression: Option<String>,
    pub names: Vec<(String, String)>,
    pub values: Vec<(String, AttributeValue)>,
}

/// The content of an [`UpdateRequest`].
pub struct UpdateRequestView {
    pub key_name: Seq<char>,
    pub key: Attr,
    pub update_expression: Seq<char>,
    pub condition_expression: Option<Seq<char>>,
    pub names: Seq<(Seq<char>, Seq<char>)>,
    pub values: Seq<(Seq<char>, Attr)>,
}

impl View for UpdateRequest {
    type V = UpdateRequestView;

    open spec fn view(&self) -> UpdateRequestView {
        UpdateRequestView {
            key_name: self.key_name@,
            key: self.key@,
            update_expression: self.update_expression@,
            condition_expression: match self.condition_expression {
                Some(c) => Some(c@),
                None => None,
            },
            names: self.names@.map_values(|p: (String, String)| (p.0@, p.1@)),
            values: self.values@.map_values(|p: (String, AttributeValue)| (p.0@, p.1@)),
        }
    }
}

/// The update that moves task `id` from status `from` to status `to`, and
/// only if it still has status `from`.
pub open spec fn status_update(id: Seq<char>, from: Status, to: Status) -> UpdateRequestView {
    UpdateRequestView {
        key_name: "ID"@,
        key: Attr::S(id),
        update_expression: "SET #status = :toStatus"@,
        condition_expression: Some("#status = :fromStatus"@),
        names: seq![("#status"@, "Status"@)],
        values: seq![
            (":toStatus"@, Attr::N(decimal(status_code(to@) as nat))),
            (":fromStatus"@, Attr::N(decimal(status_code(from@) as nat))),
        ],
    }
}

/// The conditional update of a task's status, as made on a direct call.
pub fn status_update_request(id: &str, from: &Status, to: &Status) -> (r: UpdateRequest)
    ensures
        r@ == status_update(id@, *from, *to),
{
    let mut names: Vec<(String, String)> = Vec::new();
    names.push((String::from_str("#status"), String::from_str(Status::attribute_name())));
    let mut values: Vec<(String, AttributeValue)> = Vec::new();
    values.push((String::from_str(":toStatus"), AttributeValue::N(decimal_string(to.code() as u64))));
    values.push(
        (String::from_str(":fromStatus"), AttributeValue::N(decimal_string(from.code() as u64))),
    );
    let r = UpdateRequest {
        key_name: String::from_str(Item::primary_key_name()),
        key: AttributeValue::S(String::from_str(id)),
        update_expression: String::from_str("SET #status = :toStatus"),
        condition_expression: Some(String::from_str("#status = :fromStatus")),
        names,
        values,
    };
    proof {
        assert(r@.names =~= status_update(id@, *from, *to).names);
        assert(r@.values =~= status_update(id@, *from, *to).values);
    }
    r
}

/// The conditional update of a task's status as the retrying worker makes
/// it once the first attempt was queued: the worker hands the two statuses
/// over in swapped order, so the retried update asks for `from` where the
/// task has `to`.
pub fn retried_status_update_request(id: &str, from: &Status, to: &Status) -> (r: UpdateRequest)
    ensures
        r@ == status_update(id@, *to, *from),
{
    status_update_request(id, to, from)
}

/// The update that records a task's outcome: its new status code and its
/// data.
pub open spec fn outcome_update(id: Seq<char>, code: nat, data: Attr) -> UpdateRequestView {
    UpdateRequestView {
        key_name: "ID"@,
        key: Attr::S(id),
        update_expression: "SET #status = :newStatus, #data = :data"@,
        condition_expression: None,
        names: seq![("#status"@, "Status"@), ("#data"@, "Data"@)],
        values: seq![(":newStatus"@, Attr::N(decimal(code))), (":data"@, data)],
    }
}

fn outcome_update_request(id: &str, code: u64, data: AttributeValue) -> (r: UpdateRequest)
    ensures
        r@ == outcome_update(id@, code as nat, data@),
{
    let mut names: Vec<(String, String)> = Vec::new();
    names.push((String::from_str("#status"), String::from_str(Status::attribute_name())));
    names.push((String::from_str("#data"), String::from_str(TaskResult::attribute_name())));
    let mut values: Vec<(String, AttributeValue)> = Vec::new();
    values.push((String::from_str(":newStatus"), AttributeValue::N(decimal_string(code))));
    let ghost d = data@;
    values.push((String::from_str(":data"), data));
    let r = UpdateRequest {
        key_name: String::from_str(Item::primary_key_name()),
        key: AttributeValue::S(String::from_str(id)),
        update_expression: String::from_str("SET #status = :newStatus, #data = :data"),
        condition_expression: None,
        names,
        values,
    };
    proof {
        assert(r@.names =~= outcome_update(id@, code as nat, d).names);
        assert(r@.values =~= outcome_update(id@, code as nat, d).values);
    }
    r
}

/// The download links recorded for a successful compilation: the links
/// themselves, or one empty link where there are none, since the table
/// refuses an empty string set.
pub open spec fn recorded_urls(urls: Seq<Seq<char>>) -> Seq<Seq<char>> {
    if urls.len() == 0 {
        seq![Seq::<char>::empty()]
    } else {
        urls
    }
}

/// The update that records a successful compilation of task `id` with the
/// download links of its artifacts (status code 2), and the links
/// recorded.
pub fn compilation_success_update(id: &str, presigned_urls: Vec<String>) -> (r: (UpdateRequest, Vec<String>))
    ensures
        strings_view(r.1@) == recorded_urls(strings_view(presigned_urls@)),
        r.0@ == outcome_update(id@, 2, Attr::Ss(recorded_urls(strings_view(presigned_urls@)))),
{
    let mut urls = presigned_urls;
    if urls.len() == 0 {
        urls.push(String::new());
        proof {
            assert(strings_view(urls@) =~= seq![Seq::<char>::empty()]);
        }
    }
    let mut copy: Vec<String> = Vec::new();
    let mut i: usize = 0;
    while i < urls.len()
        invariant
            i <= urls@.len(),
            strings_view(copy@) == strings_view(urls@).take(i as int),
        decreases urls@.len() - i,
    {
        let ghost c0 = copy@;
        copy.push(urls[i].clone());
        proof {
            assert(strings_view(copy@) =~= strings_view(c0).push(urls@[i as int]@));
            assert(strings_view(urls@).take(i + 1) =~= strings_view(urls@).take(i as int).push(
                urls@[i as int]@,
            ));
        }
        i = i + 1;
    }
    proof {
        assert(strings_view(urls@).take(urls@.len() as int) =~= strings_view(urls@));
    }
    (outcome_update_request(id, 2, AttributeValue::Ss(copy)), urls)
}

/// The update that records a failed compilation of task `id` with its
/// message (status code 3).
pub fn compilation_failure_update(id: &str, message: &str) -> (r: UpdateRequest)
    ensures
        r@ == outcome_update(id@, 3, Attr::S(message@)),
{
    outcome_update_request(id, 3, AttributeValue::S(String::from_str(message)))
}

/// The most items one page of the scan of old tasks holds.
pub const SCAN_PAGE_LIMIT: i32 = 100;

/// A scan of the tasks table for the tasks created at or before a time.
#[derive(Debug, PartialEq)]
pub struct ScanRequest {
    pub filter_expression: String,
    pub values: Vec<(String, AttributeValue)>,
    pub limit: i32,
}

/// The scan for the tasks created at or before the time written
/// `time_text`.
pub fn scan_prior_to_request(time_text: &str) -> (r: ScanRequest)
    ensures
        r.filter_expression@ == "CreatedAt <= :created_at"@,
        r.values@.len() == 1,
        r.values@[0].0@ == ":created_at"@,
        r.values@[0].1@ == Attr::S(time_text@),
        r.limit == SCAN_PAGE_LIMIT,
{
    let mut values: Vec<(String, AttributeValue)> = Vec::new();
    values.push((String::from_str(":created_at"), AttributeValue::S(String::from_str(time_text))));
    ScanRequest {
        filter_expression: String::from_str("CreatedAt <= :created_at"),
        values,
        limit: SCAN_PAGE_LIMIT,
    }
}

/// After a page of a listing: the token for the next page, or `None` when
/// the listing is over, because the page says it is complete, says nothing
/// of it, or gives no token.
pub fn next_listing_token(is_truncated: Option<bool>, next_token: Option<String>) -> (r: Option<String>)
    ensures
        r == (if is_truncated == Some(true) {
            next_token
        } else {
            None::<String>
        }),
{
    match is_truncated {
        Some(true) => next_token,
        _ => None,
    }
}

/// What a listing holds of its objects so far, and what a page adds.
pub open spec fn listed_after_page(
    listed: Seq<(Option<String>, Option<i64>)>,
    contents: Option<Vec<(Option<String>, Option<i64>)>>,
) -> Seq<(Option<String>, Option<i64>)> {
    match contents {
        Some(c) => listed + c@,
        None => listed,
    }
}

/// Takes in one page of a listing: its objects (key and size) join those
/// listed so far, in the page's order; the result is the token for the
/// next page, or `None` when the listing is over.
pub fn absorb_listing_page(
    listed: &mut Vec<(Option<String>, Option<i64>)>,
    contents: Option<Vec<(Option<String>, Option<i64>)>>,
    is_truncated: Option<bool>,
    next_token: Option<String>,
) -> (r: Option<String>)
    ensures
        final(listed)@ == listed_after_page(old(listed)@, contents),
        r == (if is_truncated == Some(true) {
            next_token
        } else {
            None::<String>
        }),
{
    match contents {
        Some(c) => {
            let mut c = c;
            listed.append(&mut c);
        },
        None => {},
    }
    next_listing_token(is_truncated, next_token)
}

/// Why a stored object could not be read into a file.
#[derive(Debug, Clone, Copy, PartialEq, Eq, Structural)]
pub enum ObjectProblem {
    /// The listing gave no key or no size for it.
    InvalidObject,
}

/// The key and size of a listed object, which both must be known.
pub fn listed_object(key: Option<String>, size: Option<i64>) -> (r: Result<(String, i64), ObjectProblem>)
    ensures
        match (key, size) {
            (Some(k), Some(s)) => r matches Ok(p) && p.0@ == k@ && p.1 == s,
            _ => r == Err::<(String, i64), ObjectProblem>(ObjectProblem::InvalidObject),
        },
{
    match (key, size) {
        (Some(k), Some(s)) => Ok((k, s)),
        _ => Err(ObjectProblem::InvalidObject),
    }
}

/// Whether the bytes read for an object are as many as listed.
pub fn read_size_matches(read: usize, expected: i64) -> (r: bool)
    ensures
        r == (read as int == expected as int),
{
    if expected < 0 {
        false
    } else {
        read as u64 == expected as u64
    }
}

/// The path of a stored file below the folder it was listed from; `None`
/// where the key does not lie in that folder.
pub fn file_path_in_dir(key: &str, dir: &str) -> (r: Option<String>)
    ensures
        match path_strip_prefix(key@, dir@) {
            Some(p) => r matches Some(x) && x@ == p,
            None => r is None,
        },
{
    strip_prefix(key, dir)
}

/// The keys a folder's removal deletes, in order: the listed keys up to the
/// first without a key; where every key is known, the folder's own key
/// last.
pub open spec fn dir_deletions(dir: Seq<char>, keys: Seq<Option<Seq<char>>>) -> Seq<Seq<char>>
    decreases keys.len(),
{
    if keys.len() == 0 {
        seq![dir]
    } else {
        match keys[0] {
            Some(k) => seq![k] + dir_deletions(dir, keys.drop_first()),
            None => Seq::empty(),
        }
    }
}

/// Whether every listed object has a key.
pub open spec fn all_keys_known(keys: Seq<Option<Seq<char>>>) -> bool {
    forall|i: int| 0 <= i < keys.len() ==> #[trigger] keys[i] is Some
}

/// The keys of listed objects.
pub open spec fn keys_view(keys: Seq<Option<String>>) -> Seq<Option<Seq<char>>> {
    keys.map_values(|k: Option<String>| match k {
        Some(s) => Some(s@),
        None => None,
    })
}

/// The deletions that remove a folder, and whether the removal is
/// complete; an incomplete one ends in an invalid-object error after the
/// deletions made.
pub fn delete_dir_plan(dir: &str, keys: Vec<Option<String>>) -> (r: (Vec<String>, bool))
    ensures
        strings_view(r.0@) == dir_deletions(dir@, keys_view(keys@)),
        r.1 == all_keys_known(keys_view(keys@)),
{
    let ghost all = keys_view(keys@);
    let mut rest = keys;
    let mut out: Vec<String> = Vec::new();
    let ghost mut k: int = 0;
    while rest.len() > 0
        invariant
            all == keys_view(keys@),
            0 <= k <= all.len(),
            keys_view(rest@) == all.subrange(k, all.len() as int),
            strings_view(out@) + dir_deletions(dir@, keys_view(rest@)) == dir_deletions(dir@, all),
            forall|j: int| 0 <= j < k ==> #[trigger] all[j] is Some,
        decreases rest@.len(),
    {
        let ghost before = rest@;
        let key = rest.remove(0);
        proof {
            assert(keys_view(rest@) =~= keys_view(before).drop_first());
            assert(keys_view(before)[0] == match key {
                Some(s) => Some(s@),
                None => None::<Seq<char>>,
            });
        }
        match key {
            Some(s) => {
                let ghost o0 = strings_view(out@);
                let ghost sv = s@;
                out.push(s);
                proof {
                    assert(strings_view(out@) =~= o0.push(sv));
                    assert(o0.push(sv) + dir_deletions(dir@, keys_view(rest@)) =~= o0 + (seq![sv]
                        + dir_deletions(dir@, keys_view(rest@))));
                    assert(all[k] == keys_view(before)[0]);
                    k = k + 1;
                }
            },
            None => {
                proof {
                    assert(all[k] == keys_view(before)[0]);
                    assert(strings_view(out@) + Seq::<Seq<char>>::empty() =~= strings_view(out@));
                    assert(!all_keys_known(all));
                }
                return (out, false);
            },
        }
    }
    proof {
        assert(k == all.len());
    }
    let ghost o1 = strings_view(out@);
    out.push(String::from_str(dir));
    proof {
        assert(strings_view(out@) =~= o1 + seq![dir@]);
    }
    (out, true)
}

/// A successful compilation records every download link it was given, in
/// the order given, both in the update's data and in the links returned;
/// only where there are no links at all does the record hold a single
/// empty one, since the table takes no empty string set.
pub proof fn lemma_recorded_links(urls: Seq<Seq<char>>)
    ensures
        urls.len() > 0 ==> recorded_urls(urls).len() == urls.len(),
        forall|i: int| 0 <= i < urls.len() ==> #[trigger] recorded_urls(urls)[i] == urls[i],
        urls.len() == 0 ==> recorded_urls(urls) == seq![Seq::<char>::empty()],
{
}

/// The update of a compiled task marks it ready (code 2) and stores the
/// links as its data; that of a failed task marks it failed (code 3) and
/// stores the message.
pub proof fn lemma_outcome_updates(id: Seq<char>, urls: Seq<Seq<char>>, message: Seq<char>)
    ensures
        outcome_update(id, 2, Attr::Ss(recorded_urls(urls))).values == seq![
            (":newStatus"@, Attr::N(seq!['2'])),
            (":data"@, Attr::Ss(recorded_urls(urls))),
        ],
        outcome_update(id, 3, Attr::S(message)).values == seq![
            (":newStatus"@, Attr::N(seq!['3'])),
            (":data"@, Attr::S(message)),
        ],
        outcome_update(id, 2, Attr::Ss(recorded_urls(urls))).key == Attr::S(id),
{
    assert(decimal(2) =~= seq!['2']);
    assert(decimal(3) =~= seq!['3']);
}

} // verus!
