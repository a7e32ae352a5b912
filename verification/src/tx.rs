//! Decision logic for running a unit of work inside one database transaction.
//!
//! A transaction run is a short protocol: begin, run the work, then commit
//! (if the work succeeded) or roll back (if it failed).  The asynchronous
//! driver that owns the pool and the transaction handle performs the outside
//! calls; after each call it reports the outcome as a [`TxEvent`] and asks
//! [`tx_step`] what to do next.  `tx_step` is the single place where the
//! commit/rollback decision is made, and its contract pins every transition.

use vstd::prelude::*;

verus! {

/// Where a transaction run currently stands.
///
/// `Committing` carries the work's success value until the commit outcome is
/// known; `RollingBack` carries the work's error until the rollback outcome
/// is known.
pub enum TxState<R, E> {
    /// No transaction exists yet; the begin outcome is awaited.
    Idle,
    /// The transaction is open and the work is running.
    Working,
    /// The work succeeded; the commit outcome is awaited.
    Committing(R),
    /// The work failed; the rollback outcome is awaited.
    RollingBack(E),
}

/// The outcome of one outside call, reported back by the driver.
pub enum TxEvent<R, E> {
    /// The pool handed out a transaction.
    BeginOk,
    /// The pool could not hand out a transaction.
    BeginFailed(E),
    /// The work ran to completion and returned this result.
    WorkReturned(Result<R, E>),
    /// The commit succeeded.
    CommitOk,
    /// The commit failed with this driver error.
    CommitFailed(E),
    /// The rollback succeeded.
    RollbackOk,
    /// The rollback failed with this driver error.
    RollbackFailed(E),
}

/// The next outside call the driver must perform.
pub enum TxAction {
    /// Run the work closure on the open transaction.
    RunWork,
    /// Commit the transaction, consuming the handle.
    Commit,
    /// Roll the transaction back, consuming the handle.
    Rollback,
}

/// What one decision step yields: either another outside call to perform in
/// a new state, or the final result of the whole run.
pub enum TxStep<R, E> {
    Continue(TxState<R, E>, TxAction),
    Finish(Result<R, E>),
}

/// Which events can legally be reported in which state.
pub open spec fn event_fits<R, E>(state: TxState<R, E>, event: TxEvent<R, E>) -> bool {
    match (state, event) {
        (TxState::Idle, TxEvent::BeginOk) => true,
        (TxState::Idle, TxEvent::BeginFailed(_)) => true,
        (TxState::Working, TxEvent::WorkReturned(_)) => true,
        (TxState::Committing(_), TxEvent::CommitOk) => true,
        (TxState::Committing(_), TxEvent::CommitFailed(_)) => true,
        (TxState::RollingBack(_), TxEvent::RollbackOk) => true,
        (TxState::RollingBack(_), TxEvent::RollbackFailed(_)) => true,
        _ => false,
    }
}

/// The full transition table of a transaction run.
///
/// - A successful begin starts the work; a failed begin ends the run with
///   the pool's error unchanged, and nothing is ever committed or rolled back.
/// - Work returning `Ok(v)` commands a commit and holds on to `v`; work
///   returning `Err(e)` commands a rollback and holds on to `e`.
/// - A successful commit ends the run with `Ok(v)`; a failed commit discards
///   `v` and reports the commit error, since nothing durable happened.
/// - A successful rollback ends the run with the work's own error; a failed
///   rollback reports the rollback error in its place (the original error is
///   discarded — a documented, lossy trade-off).
pub open spec fn step_spec<R, E>(state: TxState<R, E>, event: TxEvent<R, E>) -> TxStep<R, E> {
    match (state, event) {
        (TxState::Idle, TxEvent::BeginOk) => TxStep::Continue(
            TxState::Working,
            TxAction::RunWork,
        ),
        (TxState::Idle, TxEvent::BeginFailed(e)) => TxStep::Finish(Result::Err(e)),
        (TxState::Working, TxEvent::WorkReturned(Result::Ok(v))) => TxStep::Continue(
            TxState::Committing(v),
            TxAction::Commit,
        ),
        (TxState::Working, TxEvent::WorkReturned(Result::Err(e))) => TxStep::Continue(
            TxState::RollingBack(e),
            TxAction::Rollback,
        ),
        (TxState::Committing(v), TxEvent::CommitOk) => TxStep::Finish(Result::Ok(v)),
        (TxState::Committing(_), TxEvent::CommitFailed(e)) => TxStep::Finish(Result::Err(e)),
        (TxState::RollingBack(e), TxEvent::RollbackOk) => TxStep::Finish(Result::Err(e)),
        (TxState::RollingBack(_), TxEvent::RollbackFailed(e)) => TxStep::Finish(Result::Err(e)),
        _ => arbitrary(),
    }
}

/// Decide the next move of a transaction run.
///
/// The driver calls this after every outside call; the returned action is the
/// only outside call it may perform next, and `Finish` carries the result it
/// must return.  The contract ties the implementation to [`step_spec`], the
/// single transition table all the laws below are stated over.
pub fn tx_step<R, E>(state: TxState<R, E>, event: TxEvent<R, E>) -> (r: TxStep<R, E>)
    requires
        event_fits(state, event),
    ensures
        r == step_spec(state, event),
{
    match (state, event) {
        (TxState::Idle, TxEvent::BeginOk) => TxStep::Continue(TxState::Working, TxAction::RunWork),
        (TxState::Idle, TxEvent::BeginFailed(e)) => TxStep::Finish(Err(e)),
        (TxState::Working, TxEvent::WorkReturned(Ok(v))) => TxStep::Continue(
            TxState::Committing(v),
            TxAction::Commit,
        ),
        (TxState::Working, TxEvent::WorkReturned(Err(e))) => TxStep::Continue(
            TxState::RollingBack(e),
            TxAction::Rollback,
        ),
        (TxState::Committing(v), TxEvent::CommitOk) => TxStep::Finish(Ok(v)),
        (TxState::Committing(_), TxEvent::CommitFailed(e)) => TxStep::Finish(Err(e)),
        (TxState::RollingBack(e), TxEvent::RollbackOk) => TxStep::Finish(Err(e)),
        (TxState::RollingBack(_), TxEvent::RollbackFailed(e)) => TxStep::Finish(Err(e)),
        _ => vstd::pervasive::unreached(),
    }
}

/// Replay a whole run through [`step_spec`]: from `state`, feed the events in
/// order and collect every action commanded on the way, together with the
/// final result if the run finished.
pub open spec fn drive<R, E>(state: TxState<R, E>, events: Seq<TxEvent<R, E>>) -> (Seq<
    TxAction,
>, Option<Result<R, E>>)
    decreases events.len(),
{
    if events.len() == 0 {
        (Seq::<TxAction>::empty(), Option::<Result<R, E>>::None)
    } else {
        match step_spec(state, events.first()) {
            TxStep::Continue(next, act) => {
                let rest = drive(next, events.drop_first());
                (seq![act] + rest.0, rest.1)
            },
            TxStep::Finish(outcome) => (Seq::<TxAction>::empty(), Option::Some(outcome)),
        }
    }
}

/// Law: when the work returns `Ok`, the run commands the work once and a
/// commit once — and never a rollback — whatever the commit outcome is; a
/// successful commit yields `Ok` with the work's value, a failed commit
/// yields the commit error.
pub proof fn lemma_work_ok_commits_exactly_once<R, E>(v: R, commit_event: TxEvent<R, E>)
    requires
        commit_event matches TxEvent::CommitOk || commit_event matches TxEvent::CommitFailed(_),
    ensures
        ({
            let run = drive(
                TxState::<R, E>::Idle,
                seq![TxEvent::BeginOk, TxEvent::WorkReturned(Result::Ok(v)), commit_event],
            );
            &&& run.0 =~= seq![TxAction::RunWork, TxAction::Commit]
            &&& commit_event matches TxEvent::CommitOk ==> run.1 == Option::Some(
                Result::<R, E>::Ok(v),
            )
            &&& commit_event matches TxEvent::CommitFailed(e) ==> run.1 == Option::Some(
                Result::<R, E>::Err(e),
            )
        }),
{
    reveal_with_fuel(drive, 5);
    let evs = seq![
        TxEvent::<R, E>::BeginOk,
        TxEvent::WorkReturned(Result::Ok(v)),
        commit_event,
    ];
    let evs1 = evs.drop_first();
    let evs2 = evs1.drop_first();
    assert(evs1 =~= seq![TxEvent::<R, E>::WorkReturned(Result::Ok(v)), commit_event]);
    assert(evs2 =~= seq![commit_event]);
    assert(evs2.drop_first() =~= Seq::<TxEvent<R, E>>::empty());
}

/// Law: when the work returns `Err`, the run commands the work once and a
/// rollback once — and never a commit; a successful rollback yields the
/// work's own error unchanged, a failed rollback yields the rollback error
/// in its place.
pub proof fn lemma_work_err_rolls_back_exactly_once<R, E>(e: E, rollback_event: TxEvent<R, E>)
    requires
        rollback_event matches TxEvent::RollbackOk || rollback_event matches TxEvent::RollbackFailed(
            _,
        ),
    ensures
        ({
            let run = drive(
                TxState::<R, E>::Idle,
                seq![TxEvent::BeginOk, TxEvent::WorkReturned(Result::Err(e)), rollback_event],
            );
            &&& run.0 =~= seq![TxAction::RunWork, TxAction::Rollback]
            &&& rollback_event matches TxEvent::RollbackOk ==> run.1 == Option::Some(
                Result::<R, E>::Err(e),
            )
            &&& rollback_event matches TxEvent::RollbackFailed(e2) ==> run.1 == Option::Some(
                Result::<R, E>::Err(e2),
            )
        }),
{
    reveal_with_fuel(drive, 5);
    let evs = seq![
        TxEvent::<R, E>::BeginOk,
        TxEvent::WorkReturned(Result::Err(e)),
        rollback_event,
    ];
    let evs1 = evs.drop_first();
    let evs2 = evs1.drop_first();
    assert(evs1 =~= seq![TxEvent::<R, E>::WorkReturned(Result::Err(e)), rollback_event]);
    assert(evs2 =~= seq![rollback_event]);
    assert(evs2.drop_first() =~= Seq::<TxEvent<R, E>>::empty());
}

/// Law: when the pool cannot hand out a transaction, the run commands no
/// outside call at all — no work, no commit, no rollback — and returns the
/// acquisition error unchanged.
pub proof fn lemma_begin_failure_commands_nothing<R, E>(e: E)
    ensures
        ({
            let run = drive(TxState::<R, E>::Idle, seq![TxEvent::<R, E>::BeginFailed(e)]);
            &&& run.0 =~= Seq::<TxAction>::empty()
            &&& run.1 == Option::Some(Result::<R, E>::Err(e))
        }),
{
}

} // verus!
