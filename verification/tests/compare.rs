use bsky_rusty_tools::db::build_events;
use bsky_rusty_tools::db::compare_followers;
use bsky_rusty_tools::db::compare_snapshot;
use bsky_rusty_tools::db::get_saved_handle;
use bsky_rusty_tools::db::save_followers;
use bsky_rusty_tools::db::save_handle;
use bsky_rusty_tools::db::stamp_events;
use bsky_rusty_tools::diff::diff_followers;
use bsky_rusty_tools::diff::NEW_FOLLOWER;
use bsky_rusty_tools::diff::UNFOLLOWER;
use bsky_rusty_tools::error::AppError;
use bsky_rusty_tools::follower::DiffAction;
use bsky_rusty_tools::follower::DiffEvent;
use bsky_rusty_tools::follower::Follower;
use bsky_rusty_tools::plan::StorageFault;
use bsky_rusty_tools::store::SnapshotStore;
use bsky_rusty_tools::timestamp::Timestamp;

fn follower(did: &str, handle: &str) -> Follower {
    Follower {
        did: did.to_string(),
        handle: handle.to_string(),
        indexed_at: Timestamp::new(1_700_000_000, 0).unwrap(),
    }
}

fn dids(list: &[Follower]) -> Vec<String> {
    list.iter().map(|f| f.did.clone()).collect()
}

fn texts(list: &[&str]) -> Vec<String> {
    list.iter().map(|s| s.to_string()).collect()
}

fn duplicate_error() -> AppError {
    AppError::Database("UNIQUE constraint failed: followers.did".to_string())
}

#[test]
fn compare_reports_added_and_removed() {
    let mut store = SnapshotStore::new();
    let previous = vec![follower("A", "alice"), follower("B", "bob")];
    assert_eq!(save_followers(&mut store, Ok(previous)), Ok(2));

    let current = vec![follower("B", "bob"), follower("C", "carol")];
    let diff = compare_followers(&mut store, Ok(current)).unwrap();

    assert_eq!(dids(&diff.added), texts(&["C"]));
    assert_eq!(dids(&diff.removed), texts(&["A"]));
    assert_eq!(dids(&store.load_current()), texts(&["B", "C"]));

    let log = store.diff_log();
    assert_eq!(log.len(), 2);
    assert_eq!(log[0].did, "C");
    assert_eq!(log[0].handle, "carol");
    assert_eq!(log[0].action, DiffAction::Followed);
    assert_eq!(log[1].did, "A");
    assert_eq!(log[1].handle, "alice");
    assert_eq!(log[1].action, DiffAction::Unfollowed);
}

#[test]
fn first_capture_logs_nothing() {
    let mut store = SnapshotStore::new();
    let fetched = vec![follower("A", "alice")];
    assert_eq!(save_followers(&mut store, Ok(fetched)), Ok(1));
    assert_eq!(store.load_current(), vec![follower("A", "alice")]);
    assert!(store.diff_log().is_empty());
}

#[test]
fn empty_capture_reports_everyone_as_removed() {
    let mut store = SnapshotStore::new();
    let previous: Vec<Follower> =
        (0..100).map(|i| follower(&format!("did:plc:{i}"), &format!("user{i}"))).collect();
    let expected = dids(&previous);
    assert_eq!(save_followers(&mut store, Ok(previous)), Ok(100));

    let diff = compare_followers(&mut store, Ok(Vec::new())).unwrap();

    assert!(diff.added.is_empty());
    assert_eq!(dids(&diff.removed), expected);
    assert!(store.load_current().is_empty());
    let log = store.diff_log();
    assert_eq!(log.len(), 100);
    assert!(log.iter().all(|e| e.action == DiffAction::Unfollowed));
}

#[test]
fn first_compare_reports_everyone_as_added() {
    let mut store = SnapshotStore::new();
    let current = vec![follower("A", "alice"), follower("B", "bob")];
    let diff = compare_followers(&mut store, Ok(current)).unwrap();
    assert_eq!(dids(&diff.added), texts(&["A", "B"]));
    assert!(diff.removed.is_empty());
    assert!(!diff.is_empty());
    assert_eq!(store.diff_log().len(), 2);
}

#[test]
fn second_compare_with_the_same_capture_changes_nothing() {
    let mut store = SnapshotStore::new();
    save_followers(&mut store, Ok(vec![follower("A", "alice")])).unwrap();
    let capture = vec![follower("B", "bob"), follower("C", "carol")];

    let first = compare_followers(&mut store, Ok(capture.clone())).unwrap();
    assert_eq!(first.added.len() + first.removed.len(), 3);
    let snapshot = store.load_current();
    let log = store.diff_log();

    let second = compare_followers(&mut store, Ok(capture.clone())).unwrap();
    assert!(second.added.is_empty());
    assert!(second.removed.is_empty());
    assert!(second.is_empty());
    assert_eq!(store.load_current(), snapshot);
    assert_eq!(store.load_current(), capture);
    assert_eq!(store.diff_log(), log);
}

#[test]
fn a_changed_handle_is_no_event() {
    let mut store = SnapshotStore::new();
    save_followers(&mut store, Ok(vec![follower("A", "alice")])).unwrap();
    let diff = compare_followers(&mut store, Ok(vec![follower("A", "alice.example")])).unwrap();
    assert!(diff.is_empty());
    assert!(store.diff_log().is_empty());
    assert_eq!(store.load_current(), vec![follower("A", "alice.example")]);
}

#[test]
fn one_event_is_logged_for_each_change() {
    let mut store = SnapshotStore::new();
    save_followers(
        &mut store,
        Ok(vec![follower("A", "a"), follower("B", "b"), follower("C", "c"), follower("D", "d")]),
    )
    .unwrap();
    compare_followers(&mut store, Ok(vec![follower("A", "a"), follower("E", "e")])).unwrap();
    let before = store.diff_log().len();
    assert_eq!(before, 4);
    let diff =
        compare_followers(&mut store, Ok(vec![follower("E", "e"), follower("F", "f"), follower("B", "b")]))
            .unwrap();
    assert_eq!(dids(&diff.added), texts(&["F", "B"]));
    assert_eq!(dids(&diff.removed), texts(&["A"]));
    assert_eq!(store.diff_log().len(), before + diff.added.len() + diff.removed.len());
}

#[test]
fn failed_fetch_leaves_the_store_alone() {
    let mut store = SnapshotStore::new();
    save_followers(&mut store, Ok(vec![follower("A", "alice")])).unwrap();
    let outcome = compare_followers(&mut store, Err(AppError::Request("timed out".to_string())));
    assert_eq!(outcome, Err(AppError::Request("timed out".to_string())));
    let outcome = save_followers(&mut store, Err(AppError::Api("Forbidden".to_string())));
    assert_eq!(outcome, Err(AppError::Api("Forbidden".to_string())));
    assert_eq!(store.load_current(), vec![follower("A", "alice")]);
    assert!(store.diff_log().is_empty());
}

#[test]
fn a_capture_with_a_repeated_identity_is_refused_as_a_whole() {
    let mut store = SnapshotStore::new();
    save_followers(&mut store, Ok(vec![follower("A", "alice"), follower("B", "bob")])).unwrap();
    let repeated = vec![follower("C", "carol"), follower("D", "dan"), follower("C", "carol again")];

    assert_eq!(compare_followers(&mut store, Ok(repeated.clone())), Err(duplicate_error()));
    assert_eq!(compare_snapshot(&mut store, &repeated), Err(duplicate_error()));
    assert_eq!(save_followers(&mut store, Ok(repeated)), Err(duplicate_error()));

    assert_eq!(dids(&store.load_current()), texts(&["A", "B"]));
    assert!(store.diff_log().is_empty());
}

#[test]
fn diff_keeps_the_order_of_its_inputs() {
    let previous = vec![follower("A", "a"), follower("B", "b"), follower("C", "c")];
    let current = vec![follower("D", "d"), follower("B", "b"), follower("E", "e")];
    let diff = diff_followers(&previous, &current);
    assert_eq!(diff.added, vec![follower("D", "d"), follower("E", "e")]);
    assert_eq!(diff.removed, vec![follower("A", "a"), follower("C", "c")]);
    for added in &diff.added {
        assert!(diff.removed.iter().all(|removed| removed.did != added.did));
    }
}

#[test]
fn diff_of_two_empty_captures_is_empty() {
    let diff = diff_followers(&Vec::new(), &Vec::new());
    assert!(diff.is_empty());
}

#[test]
fn events_take_their_instants_in_order() {
    let diff = diff_followers(
        &vec![follower("A", "alice")],
        &vec![follower("B", "bob"), follower("C", "carol")],
    );
    let stamps = vec![
        Timestamp::new(10, 0).unwrap(),
        Timestamp::new(20, 0).unwrap(),
        Timestamp::new(30, 0).unwrap(),
    ];
    let events = build_events(&diff, &stamps).unwrap();
    let event = |did: &str, handle: &str, action: DiffAction, secs: i64| DiffEvent {
        did: did.to_string(),
        handle: handle.to_string(),
        action,
        timestamp: Timestamp::new(secs, 0).unwrap(),
    };
    assert_eq!(
        events,
        vec![
            event("B", "bob", DiffAction::Followed, 10),
            event("C", "carol", DiffAction::Followed, 20),
            event("A", "alice", DiffAction::Unfollowed, 30),
        ]
    );
}

#[test]
fn events_need_one_instant_each() {
    let diff = diff_followers(&vec![follower("A", "alice")], &vec![follower("B", "bob")]);
    let one = vec![Timestamp::new(10, 0).unwrap()];
    let three = vec![Timestamp::new(10, 0).unwrap(); 3];
    assert_eq!(build_events(&diff, &one), None);
    assert_eq!(build_events(&diff, &three), None);
    assert_eq!(build_events(&diff, &Vec::new()), None);
}

#[test]
fn stamped_events_carry_the_time_of_the_comparison() {
    let before = Timestamp::now();
    let diff = diff_followers(&vec![follower("A", "alice")], &vec![follower("B", "bob")]);
    let events = stamp_events(&diff);
    let after = Timestamp::now();
    assert_eq!(events.len(), 2);
    assert_eq!((events[0].did.as_str(), events[0].action), ("B", DiffAction::Followed));
    assert_eq!((events[1].did.as_str(), events[1].action), ("A", DiffAction::Unfollowed));
    for event in &events {
        assert!(before.secs() <= event.timestamp.secs());
        assert!(event.timestamp.secs() <= after.secs());
    }
}

#[test]
fn the_latest_handle_is_the_saved_one() {
    let mut store = SnapshotStore::new();
    assert_eq!(get_saved_handle(&store), Ok(None));
    assert_eq!(save_handle(&mut store, "first.bsky.social"), Ok(()));
    assert_eq!(get_saved_handle(&store), Ok(Some("first.bsky.social".to_string())));
    assert_eq!(save_handle(&mut store, "second.bsky.social"), Ok(()));
    assert_eq!(get_saved_handle(&store), Ok(Some("second.bsky.social".to_string())));
    assert_eq!(store.handles(), texts(&["first.bsky.social", "second.bsky.social"]));
    assert!(store.load_current().is_empty());
}

#[test]
fn the_report_names_new_followers_first() {
    let previous = vec![follower("A", "alice"), follower("B", "bob")];
    let current = vec![follower("C", "carol"), follower("B", "bob"), follower("D", "dan")];
    let diff = diff_followers(&previous, &current);
    assert_eq!(
        diff.report_lines(),
        texts(&["🆕 New follower: @carol", "🆕 New follower: @dan", "❌ Unfollower: @alice"])
    );
    assert_eq!(NEW_FOLLOWER, "🆕 New follower: @");
    assert_eq!(UNFOLLOWER, "❌ Unfollower: @");
    assert!(diff_followers(&previous, &previous).report_lines().is_empty());
}

fn disk_full(at: usize) -> StorageFault {
    StorageFault { at, error: AppError::Io("database or disk is full".to_string()) }
}

fn stored(store: &SnapshotStore) -> (Vec<Follower>, Vec<(String, DiffAction)>) {
    (store.load_current(), store.diff_log().into_iter().map(|e| (e.did, e.action)).collect())
}

#[test]
fn a_fault_inside_the_comparison_leaves_snapshot_and_log() {
    let mut store = SnapshotStore::new();
    save_followers(&mut store, Ok(vec![follower("A", "alice")])).unwrap();
    compare_followers(&mut store, Ok(vec![follower("A", "alice"), follower("B", "bob")])).unwrap();
    let before = stored(&store);
    assert_eq!(before.1, vec![("B".to_string(), DiffAction::Followed)]);

    // One deletion, two insertions, one event for C and one for A: five statements.
    let current = vec![follower("B", "bob"), follower("C", "carol")];
    for at in 0..5 {
        store.inject_fault(disk_full(at));
        let outcome = compare_followers(&mut store, Ok(current.clone()));
        assert_eq!(outcome, Err(AppError::Io("database or disk is full".to_string())));
        assert_eq!(stored(&store), before);
    }

    let diff = compare_followers(&mut store, Ok(current.clone())).unwrap();
    assert_eq!(dids(&diff.added), texts(&["C"]));
    assert_eq!(dids(&diff.removed), texts(&["A"]));
    assert_eq!(store.load_current(), current);
    assert_eq!(store.diff_log().len(), 3);
}

#[test]
fn a_fault_after_the_deletion_leaves_the_captured_snapshot() {
    let mut store = SnapshotStore::new();
    let snapshot = vec![follower("A", "alice"), follower("B", "bob")];
    save_followers(&mut store, Ok(snapshot.clone())).unwrap();
    compare_followers(&mut store, Ok(snapshot.clone())).unwrap();
    let before = stored(&store);

    store.inject_fault(disk_full(1));
    let outcome = save_followers(&mut store, Ok(vec![follower("C", "carol")]));
    assert_eq!(outcome, Err(AppError::Io("database or disk is full".to_string())));
    assert_eq!(stored(&store), before);
    assert_eq!(store.load_current(), snapshot);

    assert_eq!(save_followers(&mut store, Ok(vec![follower("C", "carol")])), Ok(1));
    assert_eq!(store.load_current(), vec![follower("C", "carol")]);
}

#[test]
fn a_fault_beyond_the_transaction_does_not_strike_and_is_used_up() {
    let mut store = SnapshotStore::new();
    store.inject_fault(disk_full(2));
    assert_eq!(save_followers(&mut store, Ok(vec![follower("A", "alice")])), Ok(1));
    assert_eq!(save_followers(&mut store, Ok(vec![follower("A", "a"), follower("B", "b")])), Ok(2));
    assert_eq!(dids(&store.load_current()), texts(&["A", "B"]));
}

#[test]
fn a_failed_fetch_leaves_the_fault_for_the_next_write() {
    let mut store = SnapshotStore::new();
    store.inject_fault(disk_full(0));
    let fetch_failed = Err(AppError::Request("timed out".to_string()));
    assert_eq!(compare_followers(&mut store, fetch_failed), Err(AppError::Request("timed out".to_string())));
    assert_eq!(
        save_followers(&mut store, Ok(vec![follower("A", "alice")])),
        Err(AppError::Io("database or disk is full".to_string()))
    );
    assert!(store.load_current().is_empty());
    assert_eq!(save_followers(&mut store, Ok(vec![follower("A", "alice")])), Ok(1));
}

#[test]
fn the_first_failure_of_a_write_is_the_one_passed_on() {
    let mut store = SnapshotStore::new();
    save_followers(&mut store, Ok(vec![follower("A", "alice")])).unwrap();
    // The second insertion of C, at position 2, is refused.
    let repeated = vec![follower("C", "carol"), follower("C", "carol")];

    store.inject_fault(disk_full(1));
    assert_eq!(
        store.capture_only(&repeated),
        Err(AppError::Io("database or disk is full".to_string()))
    );
    store.inject_fault(disk_full(2));
    assert_eq!(
        store.replace_and_log(&repeated, &Vec::new()),
        Err(AppError::Io("database or disk is full".to_string()))
    );
    store.inject_fault(disk_full(3));
    assert_eq!(compare_snapshot(&mut store, &repeated), Err(duplicate_error()));
    assert_eq!(store.load_current(), vec![follower("A", "alice")]);
    assert!(store.diff_log().is_empty());
}

#[test]
fn a_fault_can_strike_the_saving_of_a_handle() {
    let mut store = SnapshotStore::new();
    save_handle(&mut store, "first.bsky.social").unwrap();
    store.inject_fault(disk_full(0));
    assert_eq!(
        save_handle(&mut store, "second.bsky.social"),
        Err(AppError::Io("database or disk is full".to_string()))
    );
    assert_eq!(get_saved_handle(&store), Ok(Some("first.bsky.social".to_string())));
    store.inject_fault(disk_full(1));
    assert_eq!(save_handle(&mut store, "second.bsky.social"), Ok(()));
    assert_eq!(get_saved_handle(&store), Ok(Some("second.bsky.social".to_string())));
}
