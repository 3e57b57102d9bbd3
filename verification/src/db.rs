//! The diff engine: capture the follower list, or compare it with the
//! stored snapshot and record what changed.
//!
//! The engine keeps no state of its own.  It reads and writes the store only
//! through the store's own operations, and it never changes the store unless
//! the whole cycle succeeds.

use crate::diff::absent_from;
use crate::diff::diff_followers;
use crate::diff::lemma_absent_from_self;
use crate::diff::FollowerDiff;
use crate::error::AppError;
use crate::error::AppErrorView;
use crate::follower::distinct;
use crate::follower::event_views;
use crate::follower::follower_views;
use crate::follower::DiffAction;
use crate::follower::DiffEvent;
use crate::follower::DiffEventView;
use crate::follower::Follower;
use crate::follower::FollowerView;
use crate::plan::failure_of;
use crate::plan::lemma_session_verdict;
use crate::plan::session;
use crate::plan::strikes;
use crate::plan::Fault;
use crate::plan::PlanView;
use crate::statement::replacement;
use crate::statement::statement_views;
use crate::statement::Statement;
use crate::statement::StatementView;
use crate::store::duplicate_identity;
use crate::store::SnapshotStore;
use crate::store::StoreView;
use crate::timestamp::Timestamp;
use vstd::prelude::*;

verus! {

/// The event that records `action` for the follower `f` at the instant `at`.
pub open spec fn event_of(f: FollowerView, action: DiffAction, at: Timestamp) -> DiffEventView {
    DiffEventView { did: f.did, handle: f.handle, action, timestamp: at }
}

/// One event per follower of `records`, in order, the `i`-th stamped with
/// the `i`-th instant of `stamps`.
pub open spec fn events_of(records: Seq<FollowerView>, action: DiffAction, stamps: Seq<Timestamp>) -> Seq<
    DiffEventView,
> {
    Seq::new(records.len(), |i: int| event_of(records[i], action, stamps[i]))
}

/// The events of one comparison: a `Followed` event for each added follower,
/// then an `Unfollowed` event for each removed one, stamped in that order
/// with the instants of `stamps`.
pub open spec fn diff_events(
    added: Seq<FollowerView>,
    removed: Seq<FollowerView>,
    stamps: Seq<Timestamp>,
) -> Seq<DiffEventView> {
    events_of(added, DiffAction::Followed, stamps.take(added.len() as int)) + events_of(
        removed,
        DiffAction::Unfollowed,
        stamps.skip(added.len() as int),
    )
}

/// The instants of a list of events, in order.
pub open spec fn timestamps(events: Seq<DiffEventView>) -> Seq<Timestamp> {
    events.map_values(|e: DiffEventView| e.timestamp)
}

/// Whether `after` is what a comparison with the capture `current` makes of
/// the store contents `before`: the snapshot is `current`, the handles are
/// untouched, and the log has grown by exactly the events of the difference
/// between the old snapshot and `current`, whatever their instants.
pub open spec fn compared(before: StoreView, current: Seq<FollowerView>, after: StoreView) -> bool {
    let added = absent_from(current, before.followers);
    let removed = absent_from(before.followers, current);
    let appended = after.diffs.skip(before.diffs.len() as int);
    &&& after.followers == current
    &&& after.handles == before.handles
    &&& after.diffs == before.diffs + appended
    &&& appended == diff_events(added, removed, timestamps(appended))
}

/// Event count: a comparison appends one event per added and one per removed
/// identity, and nothing else.
pub proof fn lemma_event_count(before: StoreView, current: Seq<FollowerView>, after: StoreView)
    requires
        compared(before, current, after),
    ensures
        after.diffs.len() == before.diffs.len() + absent_from(current, before.followers).len()
            + absent_from(before.followers, current).len(),
{
}

/// Idempotence: when two comparisons in a row see the same capture, the
/// second finds nothing added and nothing removed, and leaves the store,
/// snapshot and log alike, exactly as the first one left it.
pub proof fn lemma_compare_idempotent(
    start: StoreView,
    current: Seq<FollowerView>,
    first: StoreView,
    second: StoreView,
)
    requires
        compared(start, current, first),
        compared(first, current, second),
    ensures
        absent_from(current, first.followers) == Seq::<FollowerView>::empty(),
        absent_from(first.followers, current) == Seq::<FollowerView>::empty(),
        second == first,
{
    lemma_absent_from_self(current);
    let appended = second.diffs.skip(first.diffs.len() as int);
    assert(appended.len() == 0);
    assert(second.diffs =~= first.diffs);
}

/// Builds the events of a comparison from its difference and one instant per
/// event: first the added followers, then the removed ones.  The result is
/// `None` when the number of instants is not the number of changes.
pub fn build_events(diff: &FollowerDiff, stamps: &Vec<Timestamp>) -> (built: Option<Vec<DiffEvent>>)
    ensures
        stamps@.len() == diff.added@.len() + diff.removed@.len() ==> (built matches Some(events)
            && event_views(events@) == diff_events(
            diff.added_views(),
            diff.removed_views(),
            stamps@,
        )),
        stamps@.len() != diff.added@.len() + diff.removed@.len() ==> built is None,
{
    let n = diff.added.len();
    let m = diff.removed.len();
    if stamps.len() < n || stamps.len() - n != m {
        return None;
    }
    let ghost added = diff.added_views();
    let ghost removed = diff.removed_views();
    let ghost first = events_of(added, DiffAction::Followed, stamps@.take(n as int));
    let ghost second = events_of(removed, DiffAction::Unfollowed, stamps@.skip(n as int));
    let mut events: Vec<DiffEvent> = Vec::new();
    let mut i: usize = 0;
    while i < n
        invariant
            i <= n,
            n == diff.added@.len(),
            m == diff.removed@.len(),
            stamps@.len() == n + m,
            added == diff.added_views(),
            first == events_of(added, DiffAction::Followed, stamps@.take(n as int)),
            event_views(events@) =~= first.take(i as int),
        decreases n - i,
    {
        let ghost before = events@;
        let f = &diff.added[i];
        let event = DiffEvent {
            did: f.did.clone(),
            handle: f.handle.clone(),
            action: DiffAction::Followed,
            timestamp: stamps[i],
        };
        events.push(event);
        proof {
            assert(event_views(events@) =~= event_views(before).push(event@));
            assert(first.take(i + 1) =~= first.take(i as int).push(first[i as int]));
        }
        i += 1;
    }
    assert(first.take(n as int) =~= first);
    let mut k: usize = 0;
    while k < m
        invariant
            k <= m,
            n == diff.added@.len(),
            m == diff.removed@.len(),
            stamps@.len() == n + m,
            removed == diff.removed_views(),
            second == events_of(removed, DiffAction::Unfollowed, stamps@.skip(n as int)),
            event_views(events@) =~= first + second.take(k as int),
        decreases m - k,
    {
        let ghost before = events@;
        let f = &diff.removed[k];
        assert(n + k < stamps.len());
        let event = DiffEvent {
            did: f.did.clone(),
            handle: f.handle.clone(),
            action: DiffAction::Unfollowed,
            timestamp: stamps[n + k],
        };
        events.push(event);
        proof {
            assert(event_views(events@) =~= event_views(before).push(event@));
            assert(second.take(k + 1) =~= second.take(k as int).push(second[k as int]));
        }
        k += 1;
    }
    assert(second.take(m as int) =~= second);
    Some(events)
}

/// Builds the events of a comparison, reading the clock once for each.
pub fn stamp_events(diff: &FollowerDiff) -> (events: Vec<DiffEvent>)
    ensures
        event_views(events@) == diff_events(
            diff.added_views(),
            diff.removed_views(),
            timestamps(event_views(events@)),
        ),
{
    let mut stamps: Vec<Timestamp> = Vec::new();
    let mut i: usize = 0;
    while i < diff.added.len()
        invariant
            i <= diff.added.len(),
            stamps@.len() == i,
        decreases diff.added.len() - i,
    {
        stamps.push(Timestamp::now());
        i += 1;
    }
    let mut k: usize = 0;
    while k < diff.removed.len()
        invariant
            k <= diff.removed.len(),
            stamps@.len() == diff.added.len() + k,
        decreases diff.removed.len() - k,
    {
        stamps.push(Timestamp::now());
        k += 1;
    }
    match build_events(diff, &stamps) {
        Some(events) => {
            assert(timestamps(event_views(events@)) =~= stamps@);
            events
        },
        None => {
            assert(false);
            Vec::new()
        },
    }
}

/// The number of statements of the transaction that records a comparison
/// of `current` with the store contents `before`: the deletion, one
/// insertion per follower and one log entry per change.
pub open spec fn comparison_length(before: StoreView, current: Seq<FollowerView>) -> nat {
    1 + current.len() + absent_from(current, before.followers).len() + absent_from(
        before.followers,
        current,
    ).len()
}

/// How the transaction ends that records a comparison of `current` with the
/// store contents `before`, if its events carry the instants `stamps`: the
/// contents that the store then holds, and the error that is passed on, if
/// there is one.
pub open spec fn comparison_session(
    before: StoreView,
    current: Seq<FollowerView>,
    fault: Option<Fault>,
    stamps: Seq<Timestamp>,
) -> (StoreView, Option<AppErrorView>) {
    session(
        before,
        before,
        PlanView::fresh(
            replacement(
                current,
                diff_events(
                    absent_from(current, before.followers),
                    absent_from(before.followers, current),
                    stamps,
                ),
            ),
        ),
        fault,
    )
}

/// What a comparison with the capture `current` comes to on a store that
/// holds `before` and on which `fault` may have been injected: `after` is
/// what the store then holds, `outcome` what the caller gets.
///
/// Store and outcome are those of the transaction that replaces the
/// snapshot by `current` and logs the events of the difference, whatever
/// the instants of the events.  So the comparison fails when an identity
/// occurs twice in `current` and when the fault strikes, and otherwise
/// succeeds; and whenever it fails, the store holds `before`.
pub open spec fn comparison_recorded(
    before: StoreView,
    fault: Option<Fault>,
    current: Seq<FollowerView>,
    after: StoreView,
    outcome: Result<FollowerDiff, AppError>,
) -> bool {
    &&& exists|stamps: Seq<Timestamp>|
        stamps.len() + 1 + current.len() == comparison_length(before, current)
            && #[trigger] comparison_session(before, current, fault, stamps) == (
            after,
            failure_of(outcome),
        )
    &&& outcome matches Ok(diff) ==> diff.is_between(before.followers, current) && compared(
        before,
        current,
        after,
    )
    &&& outcome is Err ==> after == before
    &&& strikes(fault, comparison_length(before, current)) ==> outcome is Err
    &&& fault is None ==> (outcome is Ok <==> distinct(current))
    &&& fault is None ==> (outcome matches Err(e) ==> e@ == AppErrorView::Database(
        duplicate_identity(),
    ))
}

/// Compares the capture `current` with the stored snapshot and records the
/// outcome: the snapshot becomes `current`, and the log receives one event
/// for each identity that was added or removed.  A changed handle under an
/// unchanged identity is no event; it is simply part of the new snapshot.
/// An empty capture is taken at face value: every stored follower is then
/// reported as removed.
///
/// The write is one transaction.  It fails when an identity occurs twice in
/// `current`, and when a fault that was injected into the store strikes;
/// then the store is exactly as it was.
pub fn compare_snapshot(store: &mut SnapshotStore, current: &Vec<Follower>) -> (outcome: Result<
    FollowerDiff,
    AppError,
>)
    ensures
        comparison_recorded(
            old(store)@,
            old(store).armed_fault(),
            follower_views(current@),
            final(store)@,
            outcome,
        ),
        final(store).armed_fault() is None,
        outcome is Ok ==> final(store)@.diffs.len() + 1 + current@.len() == old(store)@.diffs.len()
            + comparison_length(old(store)@, follower_views(current@)),
        outcome is Ok && old(store)@.followers == follower_views(current@) ==> final(store)@
            == old(store)@,
{
    let previous = store.load_current();
    let diff = diff_followers(&previous, current);
    let events = stamp_events(&diff);
    let ghost before = store@;
    let ghost fault = store.armed_fault();
    let ghost views = follower_views(current@);
    let ghost stamps = timestamps(event_views(events@));
    let written = store.replace_and_log(current, &events);
    let outcome = match written {
        Ok(()) => Ok(diff),
        Err(e) => Err(e),
    };
    proof {
        assert(comparison_session(before, views, fault, stamps) == (store@, failure_of(outcome)));
        if outcome is Ok {
            let appended = store@.diffs.skip(before.diffs.len() as int);
            assert(appended =~= event_views(events@));
            if before.followers == views {
                lemma_absent_from_self(views);
                assert(store@.diffs =~= before.diffs);
            }
        }
    }
    outcome
}

/// What `compare_followers` makes of the store contents `before`, given
/// what the fetch returned and the fault that may have been injected into
/// the store: `after` is what the store then holds, `outcome` what the
/// caller gets.  A failed fetch is passed on and nothing is written.
pub open spec fn comparison_outcome(
    before: StoreView,
    fault: Option<Fault>,
    fetched: Result<Vec<Follower>, AppError>,
    after: StoreView,
    outcome: Result<FollowerDiff, AppError>,
) -> bool {
    match fetched {
        Err(failure) => after == before && outcome == Err::<FollowerDiff, AppError>(failure),
        Ok(current) => comparison_recorded(
            before,
            fault,
            follower_views(current@),
            after,
            outcome,
        ),
    }
}

/// The compare cycle after the fetch: `fetched` is what the fetch of the
/// current followers returned.  If the fetch failed, its error is returned
/// and the store is not touched.  Otherwise the followers are compared with
/// the stored snapshot and the outcome is recorded, as `compare_snapshot`
/// says.  Whatever goes wrong, in the fetch or in the write, the store
/// holds afterwards what it held before.
pub fn compare_followers(store: &mut SnapshotStore, fetched: Result<Vec<Follower>, AppError>) -> (outcome:
    Result<FollowerDiff, AppError>)
    ensures
        comparison_outcome(
            old(store)@,
            old(store).armed_fault(),
            fetched,
            final(store)@,
            outcome,
        ),
        outcome is Err ==> final(store)@ == old(store)@,
        final(store).armed_fault() == (if fetched is Ok {
            None
        } else {
            old(store).armed_fault()
        }),
{
    match fetched {
        Ok(current) => compare_snapshot(store, &current),
        Err(failure) => Err(failure),
    }
}

/// What `save_followers` makes of the store contents `before`, given what
/// the fetch returned and the fault that may have been injected into the
/// store: `after` is what the store then holds, `outcome` what the caller
/// gets.  A failed fetch is passed on and nothing is written.  Otherwise
/// store and outcome are those of the transaction that replaces the
/// snapshot by the fetched followers: it fails when an identity occurs
/// twice among them and when the fault strikes, and then the store holds
/// `before`.
pub open spec fn capture_outcome(
    before: StoreView,
    fault: Option<Fault>,
    fetched: Result<Vec<Follower>, AppError>,
    after: StoreView,
    outcome: Result<usize, AppError>,
) -> bool {
    match fetched {
        Err(failure) => after == before && outcome == Err::<usize, AppError>(failure),
        Ok(current) => {
            &&& (after, failure_of(outcome)) == session(
                before,
                before,
                PlanView::fresh(replacement(follower_views(current@), Seq::empty())),
                fault,
            )
            &&& outcome matches Ok(count) ==> count == current@.len() && after == before.replaced(
                follower_views(current@),
                Seq::empty(),
            )
            &&& outcome is Err ==> after == before
            &&& strikes(fault, 1 + current@.len()) ==> outcome is Err
            &&& fault is None ==> (outcome is Ok <==> distinct(follower_views(current@)))
            &&& fault is None ==> (outcome matches Err(e) ==> e@ == AppErrorView::Database(
                duplicate_identity(),
            ))
        },
    }
}

/// The capture without a comparison, for a first run: `fetched` is what the
/// fetch of the current followers returned.  If the fetch failed, its error
/// is returned and the store is not touched.  Otherwise the followers become
/// the snapshot and no event is logged; the result is the number of
/// followers saved.  Whatever goes wrong, in the fetch or in the write, the
/// store holds afterwards what it held before.
pub fn save_followers(store: &mut SnapshotStore, fetched: Result<Vec<Follower>, AppError>) -> (outcome:
    Result<usize, AppError>)
    ensures
        capture_outcome(
            old(store)@,
            old(store).armed_fault(),
            fetched,
            final(store)@,
            outcome,
        ),
        outcome is Err ==> final(store)@ == old(store)@,
        final(store).armed_fault() == (if fetched is Ok {
            None
        } else {
            old(store).armed_fault()
        }),
{
    match fetched {
        Ok(current) => match store.capture_only(&current) {
            Ok(()) => Ok(current.len()),
            Err(failure) => Err(failure),
        },
        Err(failure) => Err(failure),
    }
}

/// Remembers a handle that the user typed in, in a transaction of its own.
/// The write fails only when a fault that was injected into the store
/// strikes, and then the store is as it was.
pub fn save_handle(store: &mut SnapshotStore, handle: &str) -> (done: Result<(), AppError>)
    ensures
        (final(store)@, failure_of(done)) == session(
            old(store)@,
            old(store)@,
            PlanView::fresh(seq![StatementView::InsertHandle(handle@)]),
            old(store).armed_fault(),
        ),
        final(store).armed_fault() is None,
        done is Ok ==> final(store)@ == old(store)@.apply(StatementView::InsertHandle(handle@)),
        done is Err ==> final(store)@ == old(store)@,
        done is Err <==> strikes(old(store).armed_fault(), 1),
        done matches Err(e) ==> e@ == old(store).armed_fault()->0.error,
{
    let mut statements: Vec<Statement> = Vec::new();
    statements.push(Statement::InsertHandle(handle.to_owned()));
    proof {
        let plan = statement_views(statements@);
        assert(plan =~= seq![StatementView::InsertHandle(handle@)]);
        assert(plan.drop_last() =~= Seq::<StatementView>::empty());
        assert(plan.take(0) =~= Seq::<StatementView>::empty());
        assert(plan.last() == StatementView::InsertHandle(handle@));
        assert(store@.run(plan.drop_last()) == Some(store@));
        lemma_session_verdict(store@, plan, store.armed_fault());
    }
    store.run_transaction(&statements)
}

/// The handle that was remembered last, or `None` if none ever was.
pub fn get_saved_handle(store: &SnapshotStore) -> (found: Result<Option<String>, AppError>)
    ensures
        found matches Ok(handle) && (store@.handles.len() == 0 ==> handle is None) && (
        store@.handles.len() > 0 ==> (handle matches Some(h) && h@ == store@.handles.last())),
{
    Ok(store.latest_handle())
}

} // verus!
