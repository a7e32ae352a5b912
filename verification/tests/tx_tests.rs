use txweb::http::{not_found, ok, HttpError, HttpResponsePayload};
use txweb::tx::{tx_step, TxAction, TxEvent, TxState, TxStep};

fn expect_continue<R, E>(step: TxStep<R, E>) -> (TxState<R, E>, TxAction) {
    match step {
        TxStep::Continue(state, action) => (state, action),
        TxStep::Finish(_) => panic!("expected the run to continue"),
    }
}

fn expect_finish<R, E>(step: TxStep<R, E>) -> Result<R, E> {
    match step {
        TxStep::Finish(result) => result,
        TxStep::Continue(..) => panic!("expected the run to finish"),
    }
}

#[test]
fn work_ok_commits_exactly_once() {
    let mut commits = 0;
    let mut rollbacks = 0;
    let (state, action) = expect_continue(tx_step::<i32, String>(TxState::Idle, TxEvent::BeginOk));
    assert!(matches!(action, TxAction::RunWork));
    let (state, action) = expect_continue(tx_step(state, TxEvent::WorkReturned(Ok(7))));
    match action {
        TxAction::Commit => commits += 1,
        TxAction::Rollback => rollbacks += 1,
        TxAction::RunWork => panic!("work must run only once"),
    }
    let result = expect_finish(tx_step(state, TxEvent::CommitOk));
    assert_eq!(commits, 1);
    assert_eq!(rollbacks, 0);
    assert_eq!(result, Ok(7));
}

#[test]
fn work_err_rolls_back_exactly_once() {
    let mut commits = 0;
    let mut rollbacks = 0;
    let (state, action) = expect_continue(tx_step::<i32, String>(TxState::Idle, TxEvent::BeginOk));
    assert!(matches!(action, TxAction::RunWork));
    let (state, action) =
        expect_continue(tx_step(state, TxEvent::WorkReturned(Err("denied".to_string()))));
    match action {
        TxAction::Commit => commits += 1,
        TxAction::Rollback => rollbacks += 1,
        TxAction::RunWork => panic!("work must run only once"),
    }
    let result = expect_finish(tx_step(state, TxEvent::RollbackOk));
    assert_eq!(commits, 0);
    assert_eq!(rollbacks, 1);
    assert_eq!(result, Err("denied".to_string()));
}

#[test]
fn begin_failure_returns_the_error_unchanged() {
    let step = tx_step::<i32, String>(TxState::Idle, TxEvent::BeginFailed("no pool".to_string()));
    assert_eq!(expect_finish(step), Err("no pool".to_string()));
}

#[test]
fn commit_failure_overrides_the_success_value() {
    let (state, _) = expect_continue(tx_step::<i32, String>(TxState::Idle, TxEvent::BeginOk));
    let (state, _) = expect_continue(tx_step(state, TxEvent::WorkReturned(Ok(7))));
    let result = expect_finish(tx_step(state, TxEvent::CommitFailed("lost link".to_string())));
    assert_eq!(result, Err("lost link".to_string()));
}

#[test]
fn rollback_failure_masks_the_original_error() {
    let (state, _) = expect_continue(tx_step::<i32, String>(TxState::Idle, TxEvent::BeginOk));
    let (state, _) =
        expect_continue(tx_step(state, TxEvent::WorkReturned(Err("original".to_string()))));
    let result = expect_finish(tx_step(state, TxEvent::RollbackFailed("worse".to_string())));
    assert_eq!(result, Err("worse".to_string()));
}

/// A stand-in for a database: committed rows, plus rows staged inside the
/// open transaction.  Commit makes the staged rows durable; rollback drops
/// them.
struct FakeStore {
    committed: Vec<i32>,
    staged: Vec<i32>,
}

/// Drive a whole run through `tx_step`, the way the asynchronous driver
/// does, with `work` writing through the staged buffer.
fn run_in_fake_store<R>(
    store: &mut FakeStore,
    work: impl FnOnce(&mut Vec<i32>) -> Result<R, HttpError>,
) -> Result<R, HttpError> {
    let mut work = Some(work);
    let mut step = tx_step::<R, HttpError>(TxState::Idle, TxEvent::BeginOk);
    loop {
        match step {
            TxStep::Finish(result) => return result,
            TxStep::Continue(state, action) => {
                let event = match action {
                    TxAction::RunWork => {
                        let f = work.take().expect("work must run only once");
                        TxEvent::WorkReturned(f(&mut store.staged))
                    }
                    TxAction::Commit => {
                        store.committed.append(&mut store.staged);
                        TxEvent::CommitOk
                    }
                    TxAction::Rollback => {
                        store.staged.clear();
                        TxEvent::RollbackOk
                    }
                };
                step = tx_step(state, event);
            }
        }
    }
}

#[test]
fn failed_work_leaves_the_store_unchanged_and_renders_its_status() {
    let mut store = FakeStore { committed: vec![1], staged: vec![] };
    let outcome = run_in_fake_store(&mut store, |rows| -> Result<i32, HttpError> {
        rows.push(2);
        not_found("no such row".to_string())
    });
    assert_eq!(store.committed, vec![1]);
    assert!(store.staged.is_empty());
    let err = outcome.expect_err("the work's error must be propagated");
    let resp = err.error_response();
    assert_eq!(resp.status, 404);
    match resp.payload {
        HttpResponsePayload::Message(b) => assert_eq!(b.message, "no such row"),
        _ => panic!("expected a message payload"),
    }
}

#[test]
fn successful_work_changes_the_store_and_renders_200() {
    let mut store = FakeStore { committed: vec![1], staged: vec![] };
    let outcome = run_in_fake_store(&mut store, |rows| -> Result<i32, HttpError> {
        rows.push(2);
        Ok(2)
    });
    assert_eq!(store.committed, vec![1, 2]);
    let value = outcome.expect("the work's value must be propagated");
    let resp = ok(serde_json::Value::from(value)).expect("success helper must return Ok");
    assert_eq!(resp.status, 200);
    match resp.payload {
        HttpResponsePayload::Json(v) => assert_eq!(v, serde_json::Value::from(2)),
        _ => panic!("expected a JSON payload"),
    }
}
