//! Retrying calls to the cloud services: which failures are worth another
//! try, what becomes of the outcome of an attempt, and which queued actions
//! stay queued for the next round.
use vstd::prelude::*;

verus! {

/// The kind that the service SDK's retry classifier gives an unclassified
/// transport failure.
#[derive(Debug, Clone, Copy, PartialEq, Eq, Structural)]
pub enum RetryErrorKind {
    TransientError,
    ThrottlingError,
    ServerError,
    ClientError,
    /// A kind the classifier added later, which this library does not name.
    Unnamed,
}

/// Why a request could not be dispatched.
#[derive(Debug, Clone, Copy, PartialEq, Eq, Structural)]
pub enum DispatchFailureKind {
    Timeout,
    User,
    Io,
    Other(Option<RetryErrorKind>),
}

/// How a call to a service failed.
#[derive(Debug, Clone, Copy, PartialEq, Eq, Structural)]
pub enum SdkFailure {
    ConstructionFailure,
    TimeoutError,
    DispatchFailure(DispatchFailureKind),
    ResponseError,
    ServiceError,
}

/// A failure that another attempt may overcome: a timeout, an I/O failure
/// while dispatching, or an unclassified dispatch failure of a kind other
/// than a client error.
pub open spec fn is_transient(f: SdkFailure) -> bool {
    match f {
        SdkFailure::TimeoutError => true,
        SdkFailure::DispatchFailure(k) => match k {
            DispatchFailureKind::Io => true,
            DispatchFailureKind::Timeout => true,
            DispatchFailureKind::User => false,
            DispatchFailureKind::Other(Some(kind)) => kind != RetryErrorKind::ClientError,
            DispatchFailureKind::Other(None) => false,
        },
        _ => false,
    }
}

/// Whether another attempt may overcome a failure.
pub fn is_retriable(f: &SdkFailure) -> (r: bool)
    ensures
        r == is_transient(*f),
{
    match f {
        SdkFailure::TimeoutError => true,
        SdkFailure::DispatchFailure(k) => match k {
            DispatchFailureKind::Io => true,
            DispatchFailureKind::Timeout => true,
            DispatchFailureKind::User => false,
            DispatchFailureKind::Other(Some(kind)) => match kind {
                RetryErrorKind::ClientError => false,
                _ => true,
            },
            DispatchFailureKind::Other(None) => false,
        },
        _ => false,
    }
}

/// The outcome of one attempt at a call: its value, `None` where the failure
/// is worth another try, or the error. A failure comes with how it failed.
pub fn match_result<T, E>(result: Result<T, (E, SdkFailure)>) -> (r: Result<Option<T>, E>)
    ensures
        match result {
            Ok(v) => r == Ok::<Option<T>, E>(Some(v)),
            Err((e, f)) => if is_transient(f) {
                r == Ok::<Option<T>, E>(None)
            } else {
                r == Err::<Option<T>, E>(e)
            },
        },
{
    match result {
        Ok(v) => Ok(Some(v)),
        Err((e, f)) => {
            if is_retriable(&f) {
                Ok(None)
            } else {
                Err(e)
            }
        },
    }
}

/// Whether a client talks to its service directly or through its queue of
/// retried actions.
#[derive(Debug, Clone, Copy, PartialEq, Eq, Structural)]
pub enum ConnectionState {
    Connected,
    Reconnecting,
}

/// The number a connection state is stored as.
pub open spec fn state_code(s: ConnectionState) -> u8 {
    match s {
        ConnectionState::Connected => 0,
        ConnectionState::Reconnecting => 1,
    }
}

impl ConnectionState {
    /// The number the state is stored as.
    pub fn code(self) -> (r: u8)
        ensures
            r == state_code(self),
    {
        match self {
            ConnectionState::Connected => 0,
            ConnectionState::Reconnecting => 1,
        }
    }

    /// The state stored as `code`, if any.
    pub fn from_code(code: u8) -> (r: Option<ConnectionState>)
        ensures
            code <= 1 ==> (r matches Some(s) && state_code(s) == code),
            code > 1 ==> r is None,
    {
        if code == 0 {
            Some(ConnectionState::Connected)
        } else if code == 1 {
            Some(ConnectionState::Reconnecting)
        } else {
            None
        }
    }
}

/// A stored state reads back as itself.
pub proof fn lemma_state_code_roundtrip(s: ConnectionState)
    ensures
        state_code(s) <= 1,
        forall|t: ConnectionState| state_code(t) == state_code(s) ==> t == s,
{
}

/// What a retrying worker does with the outcome of an attempt at a queued
/// action.
#[derive(Debug, PartialEq)]
pub enum ActionResolution<T, E> {
    /// Hand the result to whoever waits for it; where a state is given, the
    /// connection is in that state from now on.
    Deliver { result: Result<T, E>, state: Option<ConnectionState> },
    /// Keep the action queued; the connection is reconnecting.
    Keep,
}

/// The action's fate after an attempt: a value is delivered and shows the
/// connection is back, an error is delivered as it is, and a failure worth
/// another try keeps the action queued.
pub fn handle_action_result<T, E>(result: Result<Option<T>, E>) -> (r: ActionResolution<T, E>)
    ensures
        match result {
            Ok(Some(v)) => r == ActionResolution::<T, E>::Deliver {
                result: Ok(v),
                state: Some(ConnectionState::Connected),
            },
            Ok(None) => r == ActionResolution::<T, E>::Keep,
            Err(e) => r == ActionResolution::<T, E>::Deliver { result: Err(e), state: None },
        },
{
    match result {
        Ok(Some(v)) => ActionResolution::Deliver {
            result: Ok(v),
            state: Some(ConnectionState::Connected),
        },
        Ok(None) => ActionResolution::Keep,
        Err(e) => ActionResolution::Deliver { result: Err(e), state: None },
    }
}

/// The connection state once an attempt was resolved: the state a delivery
/// names, reconnecting when the action is kept, and the current one when a
/// delivery names none.
pub fn state_after<T, E>(resolution: &ActionResolution<T, E>, current: ConnectionState) -> (r: ConnectionState)
    ensures
        match resolution {
            ActionResolution::Deliver { state: Some(s), .. } => r == *s,
            ActionResolution::Deliver { state: None, .. } => r == current,
            ActionResolution::Keep => r == ConnectionState::Reconnecting,
        },
{
    match resolution {
        ActionResolution::Deliver { state: Some(s), .. } => *s,
        ActionResolution::Deliver { state: None, .. } => current,
        ActionResolution::Keep => ConnectionState::Reconnecting,
    }
}

/// What a client does after trying a call directly: return its result, or
/// queue the call when the failure is worth another try (the connection is
/// then reconnecting).
#[derive(Debug, PartialEq)]
pub enum DirectRoute<T, E> {
    Return(Result<T, E>),
    Queue,
}

/// The route after a direct attempt.
pub fn route_direct_attempt<T, E>(result: Result<Option<T>, E>) -> (r: DirectRoute<T, E>)
    ensures
        match result {
            Ok(Some(v)) => r == DirectRoute::<T, E>::Return(Ok(v)),
            Ok(None) => r == DirectRoute::<T, E>::Queue,
            Err(e) => r == DirectRoute::<T, E>::Return(Err(e)),
        },
{
    match result {
        Ok(Some(v)) => DirectRoute::Return(Ok(v)),
        Ok(None) => DirectRoute::Queue,
        Err(e) => DirectRoute::Return(Err(e)),
    }
}

/// Whether a client in the state stored as `code` tries a call directly
/// (connected) or queues it at once (reconnecting).
pub fn tries_directly(code: u8) -> (r: bool)
    requires
        code <= 1,
    ensures
        r == (code == state_code(ConnectionState::Connected)),
{
    code == 0
}

/// The actions still unhandled after a round, in their order: those whose
/// attempt gave the action back.
pub open spec fn unhandled<A>(outcomes: Seq<Option<A>>) -> Seq<A>
    decreases outcomes.len(),
{
    if outcomes.len() == 0 {
        Seq::empty()
    } else {
        let rest = unhandled(outcomes.drop_last());
        match outcomes.last() {
            Some(a) => rest.push(a),
            None => rest,
        }
    }
}

/// The queue after a round of attempts: the actions given back, in order.
pub fn keep_unhandled<A>(outcomes: Vec<Option<A>>) -> (r: Vec<A>)
    ensures
        r@ == unhandled(outcomes@),
{
    let ghost all = outcomes@;
    let total: usize = outcomes.len();
    let mut rest = outcomes;
    let mut kept: Vec<A> = Vec::new();
    let mut k: usize = 0;
    while rest.len() > 0
        invariant
            k + rest@.len() == all.len(),
            all.len() == total,
            rest@ == all.subrange(k as int, all.len() as int),
            kept@ == unhandled(all.subrange(0, k as int)),
        decreases rest@.len(),
    {
        let o = rest.remove(0);
        proof {
            assert(all.subrange(0, k + 1).drop_last() =~= all.subrange(0, k as int));
            assert(all.subrange(k + 1, all.len() as int) =~= all.subrange(k as int, all.len() as int).remove(0));
        }
        match o {
            Some(a) => kept.push(a),
            None => {},
        }
        k = k + 1;
    }
    assert(all.subrange(0, all.len() as int) =~= all);
    kept
}

/// The outcome of attempting one queued action in a sweep of the older
/// queue: the action is given back, or its result was handed over, which
/// fails when nobody waits for it any more.
#[derive(Debug, PartialEq)]
pub enum SweepOutcome<A> {
    Retained(A),
    Delivered { received: bool },
}

/// Whether a sweep goes on after an outcome: it stops at the first result
/// that nobody received.
pub open spec fn sweep_goes_on<A>(o: SweepOutcome<A>) -> bool {
    !(o matches SweepOutcome::Delivered { received } && !received)
}

/// Whether a sweep goes on after an outcome.
pub fn continues_sweep<A>(o: &SweepOutcome<A>) -> (r: bool)
    ensures
        r == sweep_goes_on(*o),
{
    match o {
        SweepOutcome::Retained(_) => true,
        SweepOutcome::Delivered { received } => *received,
    }
}

/// The actions that a sweep keeps: those given back, in order, before the
/// first result that nobody received; from there on the queue is dropped.
pub open spec fn swept<A>(outcomes: Seq<SweepOutcome<A>>) -> Seq<A>
    decreases outcomes.len(),
{
    if outcomes.len() == 0 {
        Seq::empty()
    } else {
        match outcomes[0] {
            SweepOutcome::Retained(a) => seq![a] + swept(outcomes.drop_first()),
            SweepOutcome::Delivered { received } => if received {
                swept(outcomes.drop_first())
            } else {
                Seq::empty()
            },
        }
    }
}

/// The queue after a sweep, given the outcomes of the attempts made in it.
pub fn sweep_pending<A>(outcomes: Vec<SweepOutcome<A>>) -> (r: Vec<A>)
    ensures
        r@ == swept(outcomes@),
{
    let ghost all = outcomes@;
    let mut rest = outcomes;
    let mut kept: Vec<A> = Vec::new();
    while rest.len() > 0
        invariant
            all == outcomes@,
            kept@ + swept(rest@) == swept(all),
        decreases rest@.len(),
    {
        let ghost before = rest@;
        let o = rest.remove(0);
        proof {
            assert(rest@ =~= before.drop_first());
        }
        match o {
            SweepOutcome::Retained(a) => {
                proof {
                    assert(kept@.push(a) + swept(rest@) =~= kept@ + (seq![a] + swept(rest@)));
                }
                kept.push(a);
            },
            SweepOutcome::Delivered { received } => {
                if !received {
                    proof {
                        assert(swept(before) =~= Seq::<A>::empty());
                        assert(kept@ + Seq::<A>::empty() =~= kept@);
                        assert(kept@ == swept(all));
                    }
                    return kept;
                }
            },
        }
    }
    proof {
        assert(kept@ + Seq::<A>::empty() =~= kept@);
    }
    kept
}

/// What the retrying worker does with what its queue handed it: a new
/// action joins the pending ones and the worker runs on; a closed queue
/// stops it.
pub fn receive_into<A>(pending: &mut Vec<A>, received: Option<A>) -> (runs_on: bool)
    ensures
        match received {
            Some(a) => runs_on && final(pending)@ == old(pending)@.push(a),
            None => !runs_on && final(pending)@ == old(pending)@,
        },
{
    match received {
        Some(a) => {
            pending.push(a);
            true
        },
        None => false,
    }
}

/// The pause, in milliseconds, between two rounds of the retrying worker.
pub const RETRY_PAUSE_MS: u64 = 3000;

/// How much of the pause is left after `elapsed_ms`: none once it has run
/// out.
pub fn remaining_pause(elapsed_ms: u64) -> (r: Option<u64>)
    ensures
        elapsed_ms <= RETRY_PAUSE_MS ==> r == Some((RETRY_PAUSE_MS - elapsed_ms) as u64),
        elapsed_ms > RETRY_PAUSE_MS ==> r is None,
{
    RETRY_PAUSE_MS.checked_sub(elapsed_ms)
}

/// A round keeps no more actions than it attempted, and keeps each in the
/// order it had.
pub proof fn lemma_unhandled_shrinks<A>(outcomes: Seq<Option<A>>)
    ensures
        unhandled(outcomes).len() <= outcomes.len(),
        forall|i: int| #![trigger unhandled(outcomes)[i]] 0 <= i < unhandled(outcomes).len() ==> exists|j: int|
            0 <= j < outcomes.len() && #[trigger] outcomes[j] == Some(unhandled(outcomes)[i]),
    decreases outcomes.len(),
{
    if outcomes.len() > 0 {
        let pre = outcomes.drop_last();
        lemma_unhandled_shrinks(pre);
        assert forall|i: int| #![trigger unhandled(outcomes)[i]] 0 <= i < unhandled(outcomes).len() implies exists|j: int|
            0 <= j < outcomes.len() && #[trigger] outcomes[j] == Some(unhandled(outcomes)[i]) by {
            if i < unhandled(pre).len() {
                let j = choose|j: int| 0 <= j < pre.len() && #[trigger] pre[j] == Some(unhandled(pre)[i]);
                assert(outcomes[j] == pre[j]);
            } else {
                assert(outcomes[outcomes.len() - 1] == Some(unhandled(outcomes)[i]));
            }
        }
    }
}

/// A round in which every attempt gave its action back keeps the whole
/// queue as it was.
pub proof fn lemma_all_unhandled<A>(actions: Seq<A>)
    ensures
        unhandled(actions.map_values(|a: A| Some(a))) == actions,
    decreases actions.len(),
{
    if actions.len() > 0 {
        lemma_all_unhandled(actions.drop_last());
        assert(actions.map_values(|a: A| Some(a)).drop_last() =~= actions.drop_last().map_values(
            |a: A| Some(a),
        ));
        assert(actions.drop_last().push(actions.last()) =~= actions);
    }
}

/// A round in which every attempt settled its action leaves the queue
/// empty.
pub proof fn lemma_all_handled<A>(n: nat)
    ensures
        unhandled(Seq::<Option<A>>::new(n, |i: int| None)).len() == 0,
    decreases n,
{
    if n > 0 {
        lemma_all_handled::<A>((n - 1) as nat);
        assert(Seq::<Option<A>>::new(n, |i: int| None).drop_last() =~= Seq::<Option<A>>::new(
            (n - 1) as nat,
            |i: int| None,
        ));
    }
}

} // verus!
