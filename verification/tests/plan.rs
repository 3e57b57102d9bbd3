use bsky_rusty_tools::error::AppError;
use bsky_rusty_tools::follower::DiffAction;
use bsky_rusty_tools::follower::DiffEvent;
use bsky_rusty_tools::follower::Follower;
use bsky_rusty_tools::plan::Step;
use bsky_rusty_tools::plan::TransactionPlan;
use bsky_rusty_tools::statement::replace_and_log_statements;
use bsky_rusty_tools::statement::Statement;
use bsky_rusty_tools::store::SnapshotStore;
use bsky_rusty_tools::store::Transaction;
use bsky_rusty_tools::timestamp::Timestamp;

fn follower(did: &str, handle: &str) -> Follower {
    Follower {
        did: did.to_string(),
        handle: handle.to_string(),
        indexed_at: Timestamp::new(1_431_648_000, 0).unwrap(),
    }
}

fn event(did: &str, handle: &str, action: DiffAction) -> DiffEvent {
    DiffEvent {
        did: did.to_string(),
        handle: handle.to_string(),
        action,
        timestamp: Timestamp::new(1_431_648_060, 0).unwrap(),
    }
}

fn disk_full() -> AppError {
    AppError::Io("database or disk is full".to_string())
}

/// Carries out the plan on a transaction of the store; the statement at the
/// position `fault_at`, if there is one, fails with `disk_full`.  Returns
/// the transaction to commit, or the error to pass on after the rollback.
fn carry_out(
    store: &SnapshotStore,
    statements: Vec<Statement>,
    fault_at: Option<usize>,
) -> Result<Transaction, AppError> {
    let mut tx = store.begin();
    let mut plan = TransactionPlan::new(statements);
    let mut position = 0;
    loop {
        match plan.step() {
            Step::Execute(statement) => {
                let outcome =
                    if fault_at == Some(position) { Err(disk_full()) } else { tx.execute(&statement) };
                plan.record(outcome);
                position += 1;
            }
            Step::Commit => return Ok(tx),
            Step::Rollback(failure) => return Err(failure),
        }
    }
}

#[test]
fn a_plan_asks_for_each_statement_and_then_for_the_commit() {
    let statements = vec![
        Statement::DeleteFollowers,
        Statement::InsertFollower(follower("A", "alice")),
        Statement::InsertDiff(event("A", "alice", DiffAction::Followed)),
    ];
    let mut plan = TransactionPlan::new(statements.clone());
    for statement in statements {
        assert_eq!(plan.step(), Step::Execute(statement.clone()));
        assert_eq!(plan.step(), Step::Execute(statement));
        plan.record(Ok(()));
    }
    assert_eq!(plan.step(), Step::Commit);
    plan.record(Ok(()));
    assert_eq!(plan.step(), Step::Commit);
    plan.record(Err(disk_full()));
    assert_eq!(plan.step(), Step::Commit);
}

#[test]
fn an_empty_plan_asks_for_the_commit_at_once() {
    let plan = TransactionPlan::new(Vec::new());
    assert_eq!(plan.step(), Step::Commit);
}

#[test]
fn a_plan_asks_for_the_rollback_after_the_first_failure() {
    let statements = vec![
        Statement::DeleteFollowers,
        Statement::InsertFollower(follower("A", "alice")),
        Statement::InsertFollower(follower("B", "bob")),
    ];
    let mut plan = TransactionPlan::new(statements);
    plan.record(Ok(()));
    plan.record(Err(disk_full()));
    assert_eq!(plan.step(), Step::Rollback(disk_full()));
    plan.record(Ok(()));
    assert_eq!(plan.step(), Step::Rollback(disk_full()));
    plan.record(Err(AppError::Database("second failure".to_string())));
    assert_eq!(plan.step(), Step::Rollback(disk_full()));
}

#[test]
fn a_fault_after_the_deletion_leaves_the_previous_snapshot() {
    let mut store = SnapshotStore::new();
    let previous = vec![follower("A", "alice"), follower("B", "bob")];
    let log = vec![event("A", "alice", DiffAction::Followed)];
    store.replace_and_log(&previous, &log).unwrap();

    let statements = replace_and_log_statements(
        &vec![follower("B", "bob"), follower("C", "carol")],
        &vec![
            event("C", "carol", DiffAction::Followed),
            event("A", "alice", DiffAction::Unfollowed),
        ],
    );
    let outcome = carry_out(&store, statements, Some(1));
    assert!(matches!(outcome, Err(e) if e == disk_full()));

    assert_eq!(store.load_current(), previous);
    assert_eq!(store.diff_log(), log);
}

#[test]
fn a_fault_at_any_statement_leaves_the_store_as_it_was() {
    let mut store = SnapshotStore::new();
    let previous = vec![follower("A", "alice"), follower("B", "bob")];
    store.capture_only(&previous).unwrap();
    let records = vec![follower("B", "bob"), follower("C", "carol")];
    let events = vec![
        event("C", "carol", DiffAction::Followed),
        event("A", "alice", DiffAction::Unfollowed),
    ];
    let statements = replace_and_log_statements(&records, &events);
    assert_eq!(statements.len(), 5);

    for fault_at in 0..statements.len() {
        let outcome = carry_out(&store, statements.clone(), Some(fault_at));
        assert!(matches!(outcome, Err(e) if e == disk_full()));
        assert_eq!(store.load_current(), previous);
        assert!(store.diff_log().is_empty());
    }

    let tx = carry_out(&store, statements.clone(), Some(statements.len())).unwrap();
    store.commit(tx);
    assert_eq!(store.load_current(), records);
    assert_eq!(store.diff_log(), events);
}

#[test]
fn a_plan_without_a_fault_does_what_the_store_does_itself() {
    let start = vec![follower("A", "alice")];
    let records = vec![follower("B", "bob"), follower("C", "carol")];
    let events = vec![event("B", "bob", DiffAction::Followed)];

    let mut by_plan = SnapshotStore::from_snapshot(start.clone()).unwrap();
    let tx = carry_out(&by_plan, replace_and_log_statements(&records, &events), None).unwrap();
    by_plan.commit(tx);

    let mut direct = SnapshotStore::from_snapshot(start).unwrap();
    direct.replace_and_log(&records, &events).unwrap();

    assert_eq!(by_plan.load_current(), direct.load_current());
    assert_eq!(by_plan.diff_log(), direct.diff_log());
}

#[test]
fn a_refused_statement_ends_the_plan_with_the_refusal() {
    let store = SnapshotStore::from_snapshot(vec![follower("A", "alice")]).unwrap();
    let statements = vec![
        Statement::InsertFollower(follower("B", "bob")),
        Statement::InsertFollower(follower("A", "alice")),
        Statement::InsertFollower(follower("C", "carol")),
    ];
    let outcome = carry_out(&store, statements, None);
    assert!(matches!(
        outcome,
        Err(e) if e == AppError::Database("UNIQUE constraint failed: followers.did".to_string())
    ));
    assert_eq!(store.load_current(), vec![follower("A", "alice")]);
}
