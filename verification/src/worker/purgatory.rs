//! The purgatory: finished tasks wait here for a while, then their stored
//! artifacts and their database record are removed.
use std::collections::HashMap;
use vstd::prelude::*;

use crate::attribute::AttributeMap;
use crate::clock::timestamp;
use crate::ident::{uuid_text, uuid_to_string};
use crate::types::errors::{ItemError, ItemErrorView};
use crate::types::item::{decode_item, Item, ItemView, Status};
use crate::types::task_result::TaskResult;
use crate::worker::layout::{
    artifacts_dir, compilation_files_dir, s3_artifacts_dir, s3_compilation_files_dir,
};

verus! {

broadcast use vstd::std_specs::hash::group_hash_axioms;

/// Seconds a finished task is kept before it is purged.
pub const DURATION_TO_PURGE: u64 = 300;

/// The purge period, in seconds, that the start-up sweep is measured in.
pub const PURGE_INTERVAL_SECS: u64 = 300;

/// Seconds between two purges of the running worker.
pub const DAEMON_PURGE_INTERVAL_SECS: u64 = 60;

/// How far back, in seconds, the start-up sweep looks for forgotten tasks:
/// six purge periods.
pub const GLOBAL_SYNC_OFFSET_SECS: i64 = 1800;

/// Seconds since the Unix epoch.
pub type Timestamp = u64;

/// One step of purging a task: removing a storage folder, or the task's
/// database record.
#[derive(Debug, PartialEq)]
pub enum PurgeAction {
    DeleteDir(String),
    DeleteItem(String),
}

/// The content of a [`PurgeAction`].
pub enum PurgeActionView {
    DeleteDir(Seq<char>),
    DeleteItem(Seq<char>),
}

impl View for PurgeAction {
    type V = PurgeActionView;

    open spec fn view(&self) -> PurgeActionView {
        match self {
            PurgeAction::DeleteDir(d) => PurgeActionView::DeleteDir(d@),
            PurgeAction::DeleteItem(i) => PurgeActionView::DeleteItem(i@),
        }
    }
}

/// The contents of a list of purge steps.
pub open spec fn actions_view(v: Seq<PurgeAction>) -> Seq<PurgeActionView> {
    v.map_values(|a: PurgeAction| a@)
}

/// How a task is purged, by where it stands. One still compiling is left
/// alone. One still pending loses its uploaded sources (the folder is
/// removed twice over) and its record. A finished one loses its artifacts
/// and its record.
pub open spec fn item_purge_actions(id: u128, status: Status) -> Seq<PurgeActionView> {
    let t = uuid_text(id);
    match status {
        Status::InProgress => Seq::empty(),
        Status::Pending => seq![
            PurgeActionView::DeleteDir(compilation_files_dir(t)),
            PurgeActionView::DeleteDir(compilation_files_dir(t)),
            PurgeActionView::DeleteItem(t),
        ],
        Status::Done(_) => seq![
            PurgeActionView::DeleteDir(artifacts_dir(t)),
            PurgeActionView::DeleteItem(t),
        ],
    }
}

/// The steps that purge a task.
pub fn purge_item_actions(id: u128, status: &Status) -> (r: Vec<PurgeAction>)
    ensures
        actions_view(r@) == item_purge_actions(id, *status),
{
    let mut r: Vec<PurgeAction> = Vec::new();
    match status {
        Status::InProgress => {},
        Status::Pending => {
            let t = uuid_to_string(id);
            r.push(PurgeAction::DeleteDir(s3_compilation_files_dir(t.as_str())));
            r.push(PurgeAction::DeleteDir(s3_compilation_files_dir(t.as_str())));
            r.push(PurgeAction::DeleteItem(t));
        },
        Status::Done(_) => {
            let t = uuid_to_string(id);
            r.push(PurgeAction::DeleteDir(s3_artifacts_dir(t.as_str())));
            r.push(PurgeAction::DeleteItem(t));
        },
    }
    proof {
        assert(actions_view(r@) =~= item_purge_actions(id, *status));
    }
    r
}

/// The steps that purge the tasks of `due`, in order; a task without a
/// known status is passed over.
pub open spec fn purge_actions(due: Seq<(u128, u64)>, statuses: Map<u128, Status>) -> Seq<PurgeActionView>
    decreases due.len(),
{
    if due.len() == 0 {
        Seq::empty()
    } else {
        let before = purge_actions(due.drop_last(), statuses);
        let id = due.last().0;
        if statuses.contains_key(id) {
            before + item_purge_actions(id, statuses[id])
        } else {
            before
        }
    }
}

/// How many records, from the start of the list, are due at `now`: the
/// purge stops at the first record that expires later.
pub open spec fn due_count(exp: Seq<(u128, u64)>, now: u64) -> nat
    decreases exp.len(),
{
    if exp.len() == 0 || exp[0].1 > now {
        0
    } else {
        1 + due_count(exp.drop_first(), now)
    }
}

/// The records kept after a purge at `now`: those that expire later, in
/// order.
pub open spec fn unexpired(exp: Seq<(u128, u64)>, now: u64) -> Seq<(u128, u64)>
    decreases exp.len(),
{
    if exp.len() == 0 {
        Seq::empty()
    } else {
        let before = unexpired(exp.drop_last(), now);
        if exp.last().1 > now {
            before.push(exp.last())
        } else {
            before
        }
    }
}

/// Whether a record of `id` is due at `now`.
pub open spec fn has_expired(exp: Seq<(u128, u64)>, now: u64, id: u128) -> bool {
    exists|i: int| 0 <= i < exp.len() && #[trigger] exp[i] == (id, exp[i].1) && exp[i].1 <= now
}

/// The statuses kept after a purge at `now`: those of tasks with no record
/// due.
pub open spec fn surviving_statuses(statuses: Map<u128, Status>, exp: Seq<(u128, u64)>, now: u64) -> Map<
    u128,
    Status,
> {
    statuses.remove_keys(Set::new(|id: u128| has_expired(exp, now, id)))
}

proof fn lemma_due_count(exp: Seq<(u128, u64)>, now: u64, k: int)
    requires
        0 <= k <= exp.len(),
        forall|j: int| 0 <= j < k ==> #[trigger] exp[j].1 <= now,
        k == exp.len() || exp[k].1 > now,
    ensures
        due_count(exp, now) == k,
    decreases k,
{
    if k > 0 {
        let rest = exp.drop_first();
        assert forall|j: int| 0 <= j < k - 1 implies #[trigger] rest[j].1 <= now by {
            assert(rest[j] == exp[j + 1]);
        }
        if k - 1 < rest.len() {
            assert(rest[k - 1] == exp[k]);
        }
        lemma_due_count(rest, now, k - 1);
    }
}

/// Tasks waiting to be purged: when each task's record expires, and where
/// each task stands.
pub struct State {
    expiration_timestamps: Vec<(u128, u64)>,
    task_status: HashMap<u128, Status>,
}

impl State {
    /// The records, in the order they were added: a task and the second at
    /// which it is due.
    pub closed spec fn expirations(&self) -> Seq<(u128, u64)> {
        self.expiration_timestamps@
    }

    /// Where each waiting task stands.
    pub closed spec fn statuses(&self) -> Map<u128, Status> {
        self.task_status@
    }

    /// An empty purgatory.
    pub fn new() -> (r: State)
        ensures
            r.expirations() == Seq::<(u128, u64)>::empty(),
            r.statuses() == Map::<u128, Status>::empty(),
    {
        State { expiration_timestamps: Vec::new(), task_status: HashMap::new() }
    }

    /// Records that task `id` finished with `result` at second `now`: it is
    /// due for purging `DURATION_TO_PURGE` seconds later.
    pub fn add_record(&mut self, id: u128, result: TaskResult, now: u64)
        requires
            now + DURATION_TO_PURGE <= u64::MAX,
        ensures
            final(self).statuses() == old(self).statuses().insert(id, Status::Done(result)),
            final(self).expirations() == old(self).expirations().push(
                (id, (now + DURATION_TO_PURGE) as u64),
            ),
    {
        let to_purge_timestamp = now + DURATION_TO_PURGE;
        self.task_status.insert(id, Status::Done(result));
        self.expiration_timestamps.push((id, to_purge_timestamp));
    }

    /// Records that task `id` finished with `result` now, as the clock
    /// reads it: the task is due `DURATION_TO_PURGE` seconds after that
    /// reading. Where the clock gives no reading, nothing is recorded.
    pub fn add_record_now(&mut self, id: u128, result: TaskResult) -> (recorded: bool)
        ensures
            recorded ==> {
                &&& final(self).statuses() == old(self).statuses().insert(id, Status::Done(result))
                &&& final(self).expirations().len() == old(self).expirations().len() + 1
                &&& final(self).expirations().drop_last() == old(self).expirations()
                &&& final(self).expirations().last().0 == id
                &&& DURATION_TO_PURGE <= final(self).expirations().last().1 <= i64::MAX
                    + DURATION_TO_PURGE
            },
            !recorded ==> *final(self) == *old(self),
    {
        match timestamp() {
            Some(now) => {
                self.add_record(id, result, now);
                true
            },
            None => false,
        }
    }

    /// Where task `id` stands, if it waits here.
    pub fn status_of(&self, id: u128) -> (r: Option<&Status>)
        ensures
            self.statuses().contains_key(id) ==> (r matches Some(s) && *s == self.statuses()[id]),
            !self.statuses().contains_key(id) ==> r is None,
    {
        self.task_status.get(&id)
    }

    /// The steps of a purge at `now`: the tasks of the records due, taken
    /// from the start of the list up to the first record that expires
    /// later, each purged as its status says.
    pub fn purge_plan(&self, now: u64) -> (r: Vec<PurgeAction>)
        ensures
            actions_view(r@) == purge_actions(
                self.expirations().take(due_count(self.expirations(), now) as int),
                self.statuses(),
            ),
    {
        let ghost exp = self.expirations();
        let mut r: Vec<PurgeAction> = Vec::new();
        let mut i: usize = 0;
        while i < self.expiration_timestamps.len() && self.expiration_timestamps[i].1 <= now
            invariant
                exp == self.expirations(),
                i <= exp.len(),
                forall|j: int| 0 <= j < i ==> #[trigger] exp[j].1 <= now,
                actions_view(r@) == purge_actions(exp.take(i as int), self.statuses()),
            decreases exp.len() - i,
        {
            let (id, _) = self.expiration_timestamps[i];
            let ghost r0 = r@;
            proof {
                assert(exp.take(i + 1).drop_last() =~= exp.take(i as int));
            }
            match self.task_status.get(&id) {
                Some(status) => {
                    let mut steps = purge_item_actions(id, status);
                    r.append(&mut steps);
                    proof {
                        assert(actions_view(r@) =~= actions_view(r0) + item_purge_actions(
                            id,
                            self.statuses()[id],
                        ));
                    }
                },
                None => {},
            }
            i = i + 1;
        }
        proof {
            lemma_due_count(exp, now, i as int);
        }
        r
    }

    /// Forgets the records due at `now`, and the statuses of their tasks;
    /// the other records stay, in order.
    pub fn retain_unexpired(&mut self, now: u64)
        ensures
            final(self).expirations() == unexpired(old(self).expirations(), now),
            final(self).statuses() == surviving_statuses(
                old(self).statuses(),
                old(self).expirations(),
                now,
            ),
    {
        let ghost exp = self.expirations();
        let ghost st = self.statuses();
        let mut kept: Vec<(u128, u64)> = Vec::new();
        let mut i: usize = 0;
        while i < self.expiration_timestamps.len()
            invariant
                exp == self.expirations(),
                i <= exp.len(),
                kept@ == unexpired(exp.take(i as int), now),
                self.statuses() == surviving_statuses(st, exp.take(i as int), now),
            decreases exp.len() - i,
        {
            let (id, timestamp) = self.expiration_timestamps[i];
            let ghost before = self.statuses();
            proof {
                assert(exp.take(i + 1).drop_last() =~= exp.take(i as int));
                assert(exp.take(i + 1).last() == (id, timestamp));
            }
            if timestamp > now {
                kept.push((id, timestamp));
                proof {
                    assert forall|x: u128| has_expired(exp.take(i + 1), now, x) == has_expired(
                        exp.take(i as int),
                        now,
                        x,
                    ) by {
                        if has_expired(exp.take(i + 1), now, x) {
                            let j = choose|j: int|
                                0 <= j < exp.take(i + 1).len() && #[trigger] exp.take(i + 1)[j]
                                    == (x, exp.take(i + 1)[j].1) && exp.take(i + 1)[j].1 <= now;
                            assert(exp.take(i as int)[j] == exp.take(i + 1)[j]);
                        }
                        if has_expired(exp.take(i as int), now, x) {
                            let j = choose|j: int|
                                0 <= j < exp.take(i as int).len() && #[trigger] exp.take(
                                    i as int,
                                )[j] == (x, exp.take(i as int)[j].1) && exp.take(i as int)[j].1
                                    <= now;
                            assert(exp.take(i + 1)[j] == exp.take(i as int)[j]);
                        }
                    }
                    assert(Set::new(|x: u128| has_expired(exp.take(i + 1), now, x)) =~= Set::new(
                        |x: u128| has_expired(exp.take(i as int), now, x),
                    ));
                }
            } else {
                self.task_status.remove(&id);
                proof {
                    assert forall|x: u128| has_expired(exp.take(i + 1), now, x) == (has_expired(
                        exp.take(i as int),
                        now,
                        x,
                    ) || x == id) by {
                        if has_expired(exp.take(i + 1), now, x) && x != id {
                            let j = choose|j: int|
                                0 <= j < exp.take(i + 1).len() && #[trigger] exp.take(i + 1)[j]
                                    == (x, exp.take(i + 1)[j].1) && exp.take(i + 1)[j].1 <= now;
                            assert(j != i);
                            assert(exp.take(i as int)[j] == exp.take(i + 1)[j]);
                        }
                        if has_expired(exp.take(i as int), now, x) {
                            let j = choose|j: int|
                                0 <= j < exp.take(i as int).len() && #[trigger] exp.take(
                                    i as int,
                                )[j] == (x, exp.take(i as int)[j].1) && exp.take(i as int)[j].1
                                    <= now;
                            assert(exp.take(i + 1)[j] == exp.take(i as int)[j]);
                        }
                        if x == id {
                            assert(exp.take(i + 1)[i as int] == (x, exp.take(i + 1)[i as int].1));
                        }
                    }
                    assert(surviving_statuses(st, exp.take(i + 1), now) =~= before.remove(id));
                }
            }
            i = i + 1;
        }
        proof {
            assert(exp.take(exp.len() as int) =~= exp);
        }
        self.expiration_timestamps = kept;
    }
}

/// A purge keeps only records that expire later, and keeps every one of
/// them.
pub proof fn lemma_purge_keeps_later(exp: Seq<(u128, u64)>, now: u64)
    ensures
        forall|i: int| 0 <= i < unexpired(exp, now).len() ==> #[trigger] unexpired(exp, now)[i].1 > now,
        forall|i: int| 0 <= i < exp.len() && #[trigger] exp[i].1 > now ==> unexpired(exp, now).contains(exp[i]),
    decreases exp.len(),
{
    if exp.len() > 0 {
        lemma_purge_keeps_later(exp.drop_last(), now);
        assert forall|i: int| 0 <= i < exp.len() && #[trigger] exp[i].1 > now implies unexpired(
            exp,
            now,
        ).contains(exp[i]) by {
            if i < exp.len() - 1 {
                assert(exp.drop_last()[i] == exp[i]);
                assert(unexpired(exp.drop_last(), now).contains(exp[i]));
                let k = choose|k: int| 0 <= k < unexpired(exp.drop_last(), now).len() && unexpired(exp.drop_last(), now)[k] == exp[i];
                if exp.last().1 > now {
                    assert(unexpired(exp, now)[k] == exp[i]);
                }
            } else {
                assert(unexpired(exp, now)[unexpired(exp, now).len() - 1] == exp[i]);
            }
        }
    }
}

/// Right after a purge at `now`, nothing is due at `now`: no task is
/// purged twice.
pub proof fn lemma_no_double_purge(exp: Seq<(u128, u64)>, now: u64)
    ensures
        due_count(unexpired(exp, now), now) == 0,
{
    lemma_purge_keeps_later(exp, now);
    let u = unexpired(exp, now);
    if u.len() > 0 {
        assert(u[0].1 > now);
    }
}

proof fn lemma_due_count_props(exp: Seq<(u128, u64)>, now: u64)
    ensures
        due_count(exp, now) <= exp.len(),
        forall|j: int| 0 <= j < due_count(exp, now) ==> #[trigger] exp[j].1 <= now,
        due_count(exp, now) == exp.len() || exp[due_count(exp, now) as int].1 > now,
    decreases exp.len(),
{
    if exp.len() > 0 && exp[0].1 <= now {
        let rest = exp.drop_first();
        lemma_due_count_props(rest, now);
        assert forall|j: int| 0 <= j < due_count(exp, now) implies #[trigger] exp[j].1 <= now by {
            if j > 0 {
                assert(exp[j] == rest[j - 1]);
            }
        }
        if due_count(exp, now) < exp.len() {
            assert(exp[due_count(exp, now) as int] == rest[due_count(rest, now) as int]);
        }
    }
}

proof fn lemma_unexpired_split(exp: Seq<(u128, u64)>, now: u64, k: int)
    requires
        0 <= k <= exp.len(),
        forall|j: int| 0 <= j < k ==> #[trigger] exp[j].1 <= now,
        forall|j: int| k <= j < exp.len() ==> #[trigger] exp[j].1 > now,
    ensures
        unexpired(exp, now) == exp.subrange(k, exp.len() as int),
    decreases exp.len(),
{
    if exp.len() > 0 {
        let pre = exp.drop_last();
        if k == exp.len() {
            assert(exp.last() == exp[k - 1]);
            lemma_unexpired_split(pre, now, k - 1);
            assert forall|j: int| 0 <= j < k - 1 implies #[trigger] pre[j].1 <= now by {
                assert(pre[j] == exp[j]);
            }
            assert(pre.subrange(k - 1, pre.len() as int) =~= Seq::<(u128, u64)>::empty());
            assert(exp.subrange(k, exp.len() as int) =~= Seq::<(u128, u64)>::empty());
        } else {
            assert(exp.last() == exp[exp.len() - 1]);
            assert forall|j: int| 0 <= j < k implies #[trigger] pre[j].1 <= now by {
                assert(pre[j] == exp[j]);
            }
            assert forall|j: int| k <= j < pre.len() implies #[trigger] pre[j].1 > now by {
                assert(pre[j] == exp[j]);
            }
            lemma_unexpired_split(pre, now, k);
            assert(pre.subrange(k, pre.len() as int).push(exp.last()) =~= exp.subrange(
                k,
                exp.len() as int,
            ));
        }
    }
}

/// With the records in the order of their due seconds, as the clock puts
/// them, a purge forgets exactly the records it purged: those kept are the
/// ones after the purged prefix.
pub proof fn lemma_purge_forgets_what_it_purged(exp: Seq<(u128, u64)>, now: u64)
    requires
        forall|i: int, j: int| 0 <= i <= j < exp.len() ==> exp[i].1 <= exp[j].1,
    ensures
        unexpired(exp, now) == exp.subrange(due_count(exp, now) as int, exp.len() as int),
{
    lemma_due_count_props(exp, now);
    let k = due_count(exp, now) as int;
    assert forall|j: int| k <= j < exp.len() implies #[trigger] exp[j].1 > now by {
        assert(exp[k].1 <= exp[j].1);
    }
    lemma_unexpired_split(exp, now, k);
}

/// Purging twice at the same second does no more than purging once.
pub proof fn lemma_purge_idempotent(exp: Seq<(u128, u64)>, now: u64)
    ensures
        unexpired(unexpired(exp, now), now) == unexpired(exp, now),
    decreases exp.len(),
{
    if exp.len() > 0 {
        lemma_purge_idempotent(exp.drop_last(), now);
        let before = unexpired(exp.drop_last(), now);
        if exp.last().1 > now {
            assert(before.push(exp.last()).drop_last() =~= before);
        }
    }
}

/// A task recorded at second `t` is purged by a purge at any second from
/// `t + DURATION_TO_PURGE` on; before that, a purge keeps it with its
/// result unless an earlier record of the same task is due.
pub proof fn lemma_record_lifetime(
    statuses: Map<u128, Status>,
    exp: Seq<(u128, u64)>,
    id: u128,
    result: TaskResult,
    t: u64,
    now: u64,
)
    requires
        t + DURATION_TO_PURGE <= u64::MAX,
    ensures
        ({
            let s2 = statuses.insert(id, Status::Done(result));
            let e2 = exp.push((id, (t + DURATION_TO_PURGE) as u64));
            &&& now >= t + DURATION_TO_PURGE ==> !surviving_statuses(s2, e2, now).contains_key(id)
            &&& now < t + DURATION_TO_PURGE && !has_expired(exp, now, id) ==> surviving_statuses(
                s2,
                e2,
                now,
            ).contains_key(id) && surviving_statuses(s2, e2, now)[id] == Status::Done(result)
        }),
{
    let s2 = statuses.insert(id, Status::Done(result));
    let e2 = exp.push((id, (t + DURATION_TO_PURGE) as u64));
    if now >= t + DURATION_TO_PURGE {
        assert(e2[exp.len() as int] == (id, e2[exp.len() as int].1));
        assert(has_expired(e2, now, id));
    }
    if now < t + DURATION_TO_PURGE && !has_expired(exp, now, id) {
        if has_expired(e2, now, id) {
            let j = choose|j: int| 0 <= j < e2.len() && #[trigger] e2[j] == (id, e2[j].1) && e2[j].1 <= now;
            assert(j < exp.len());
            assert(exp[j] == e2[j]);
        }
    }
}

/// Whether the start-up sweep goes on after collecting a batch: it stops
/// when the scan failed or found nothing more to purge.
pub fn global_sweep_goes_on(scan_succeeded: bool, collected: usize) -> (r: bool)
    ensures
        r == (scan_succeeded && collected > 0),
{
    scan_succeeded && collected > 0
}

/// The most tasks the start-up sweep collects before purging them.
pub const GLOBAL_SYNC_CAPACITY: usize = 1000;

/// Whether the start-up sweep asks for another page.
#[derive(Debug, Clone, Copy, PartialEq, Eq, Structural)]
pub enum SyncStep {
    Continue,
    Done,
}

/// The items that stored maps hold, or the first error met, in order.
pub open spec fn decode_items(ms: Seq<Map<Seq<char>, crate::attribute::Attr>>) -> Result<
    Seq<ItemView>,
    ItemErrorView,
>
    decreases ms.len(),
{
    if ms.len() == 0 {
        Ok(Seq::empty())
    } else {
        match decode_items(ms.drop_last()) {
            Err(e) => Err(e),
            Ok(v) => match decode_item(ms.last()) {
                Ok(i) => Ok(v.push(i)),
                Err(e) => Err(e),
            },
        }
    }
}

/// The contents of stored maps.
pub open spec fn maps_view(v: Seq<AttributeMap>) -> Seq<Map<Seq<char>, crate::attribute::Attr>> {
    v.map_values(|m: AttributeMap| m@)
}

/// The contents of items.
pub open spec fn items_view(v: Seq<Item>) -> Seq<ItemView> {
    v.map_values(|i: Item| i@)
}

/// Takes a page of the scan of old tasks into the collected items. With no
/// page the sweep is done. Otherwise as many maps as there is room for are
/// read; the first that holds no item is the error, and nothing is
/// collected then. The sweep is done when the collection is full or the
/// scan has no further page.
pub fn absorb_page(items: &mut Vec<Item>, page: Option<Vec<AttributeMap>>, has_more: bool) -> (r: Result<
    SyncStep,
    ItemError,
>)
    requires
        old(items)@.len() <= GLOBAL_SYNC_CAPACITY,
    ensures
        match page {
            None => r == Ok::<SyncStep, ItemError>(SyncStep::Done) && final(items)@ == old(items)@,
            Some(maps) => {
                let room = GLOBAL_SYNC_CAPACITY - old(items)@.len();
                let taken = if maps@.len() <= room {
                    maps@
                } else {
                    maps@.take(room)
                };
                match decode_items(maps_view(taken)) {
                    Err(e) => r matches Err(x) && x@ == e && final(items)@ == old(items)@,
                    Ok(v) => {
                        &&& items_view(final(items)@) == items_view(old(items)@) + v
                        &&& final(items)@.len() == old(items)@.len() + v.len()
                        &&& r == Ok::<SyncStep, ItemError>(
                            if final(items)@.len() == GLOBAL_SYNC_CAPACITY || !has_more {
                                SyncStep::Done
                            } else {
                                SyncStep::Continue
                            },
                        )
                    },
                }
            },
        },
{
    let maps = match page {
        None => {
            return Ok(SyncStep::Done);
        },
        Some(m) => m,
    };
    let room = GLOBAL_SYNC_CAPACITY - items.len();
    let n = if maps.len() <= room {
        maps.len()
    } else {
        room
    };
    let ghost taken = if maps@.len() <= room {
        maps@
    } else {
        maps@.take(room as int)
    };
    proof {
        assert(taken =~= maps@.take(n as int));
    }
    let mut decoded: Vec<Item> = Vec::new();
    let mut i: usize = 0;
    proof {
        assert(maps_view(maps@.take(0)) =~= Seq::empty());
        assert(items_view(decoded@) =~= Seq::empty());
    }
    while i < n
        invariant
            page == Some(maps),
            items@ == old(items)@,
            room == GLOBAL_SYNC_CAPACITY - old(items)@.len(),
            taken == (if maps@.len() <= room {
                maps@
            } else {
                maps@.take(room as int)
            }),
            n <= maps@.len(),
            taken == maps@.take(n as int),
            i <= n,
            decode_items(maps_view(maps@.take(i as int))) == Ok::<Seq<ItemView>, ItemErrorView>(
                items_view(decoded@),
            ),
            decoded@.len() == i,
        decreases n - i,
    {
        let ghost d0 = decoded@;
        proof {
            assert(maps_view(maps@.take(i + 1)).drop_last() =~= maps_view(maps@.take(i as int)));
            assert(maps_view(maps@.take(i + 1)).last() == maps@[i as int]@);
        }
        match Item::try_from_attribute_map(&maps[i]) {
            Ok(item) => {
                decoded.push(item);
                proof {
                    assert(items_view(decoded@) =~= items_view(d0).push(decoded@[i as int]@));
                }
            },
            Err(e) => {
                proof {
                    lemma_decode_items_error_stays(maps_view(maps@), i as int + 1, n as int);
                    assert(maps_view(maps@).take(i + 1) =~= maps_view(maps@.take(i + 1)));
                    assert(maps_view(maps@).take(n as int) =~= maps_view(maps@.take(n as int)));
                }
                return Err(e);
            },
        }
        i = i + 1;
    }
    let ghost old_items = items@;
    let ghost dec = decoded@;
    proof {
        assert(maps@.take(n as int) =~= taken);
    }
    items.append(&mut decoded);
    proof {
        assert(items_view(items@) =~= items_view(old_items) + items_view(dec));
    }
    if items.len() == GLOBAL_SYNC_CAPACITY || !has_more {
        Ok(SyncStep::Done)
    } else {
        Ok(SyncStep::Continue)
    }
}

proof fn lemma_decode_items_error_stays(ms: Seq<Map<Seq<char>, crate::attribute::Attr>>, k: int, n: int)
    requires
        0 <= k <= n <= ms.len(),
        decode_items(ms.take(k)) is Err,
    ensures
        decode_items(ms.take(n)) == decode_items(ms.take(k)),
    decreases n - k,
{
    if n > k {
        lemma_decode_items_error_stays(ms, k, n - 1);
        assert(ms.take(n).drop_last() =~= ms.take(n - 1));
    }
}

/// A finished task is purged the same way whatever it finished with: its
/// artifacts folder `artifacts/<id>/` is removed, then its record; the
/// text of the id is the UUID's hyphenated form.
pub proof fn lemma_finished_purge(id: u128, r1: TaskResult, r2: TaskResult)
    ensures
        item_purge_actions(id, Status::Done(r1)) == item_purge_actions(id, Status::Done(r2)),
        item_purge_actions(id, Status::Done(r1)) == seq![
            PurgeActionView::DeleteDir("artifacts/"@ + uuid_text(id) + "/"@),
            PurgeActionView::DeleteItem(uuid_text(id)),
        ],
{
    reveal_strlit("artifacts");
    reveal_strlit("artifacts/");
    reveal_strlit("/");
    assert(artifacts_dir(uuid_text(id)) =~= "artifacts/"@ + uuid_text(id) + "/"@);
}

/// A task still compiling is never purged; every other task loses its
/// record, last.
pub proof fn lemma_purge_removes_record(id: u128, status: Status)
    ensures
        status is InProgress <==> item_purge_actions(id, status).len() == 0,
        !(status is InProgress) ==> item_purge_actions(id, status).last()
            == PurgeActionView::DeleteItem(uuid_text(id)),
{
}

/// A task still pending loses its uploaded sources, the folder `<id>/`,
/// and then its record; nothing else is removed.
pub proof fn lemma_pending_purge(id: u128)
    ensures
        forall|i: int| 0 <= i < item_purge_actions(id, Status::Pending).len() - 1 ==>
            #[trigger] item_purge_actions(id, Status::Pending)[i] == PurgeActionView::DeleteDir(
                uuid_text(id) + "/"@,
            ),
        item_purge_actions(id, Status::Pending).len() > 1,
        item_purge_actions(id, Status::Pending).last() == PurgeActionView::DeleteItem(uuid_text(id)),
{
}

} // verus!
