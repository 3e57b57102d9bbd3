//! The snapshot store: the table of current followers, the append-only diff
//! log and the remembered handles, changed only through statements that run
//! inside a transaction.
//!
//! A store is meant to have one writer at a time.  A transaction works on a
//! copy of the tables and replaces them as a whole when it commits, so a
//! transaction that is abandoned, for whatever reason, leaves no trace.

use crate::error::AppError;
use crate::error::AppErrorView;
use crate::follower::distinct;
use crate::follower::event_views;
use crate::follower::follower_views;
use crate::follower::follows;
use crate::follower::has_distinct_identities;
use crate::follower::identities;
use crate::follower::is_follower;
use crate::follower::lemma_distinct_step;
use crate::follower::DiffEvent;
use crate::follower::DiffEventView;
use crate::follower::Follower;
use crate::follower::FollowerView;
use crate::plan::failure_of;
use crate::plan::lemma_session_verdict;
use crate::plan::session;
use crate::plan::strikes;
use crate::plan::Fault;
use crate::plan::PlanView;
use crate::plan::Step;
use crate::plan::StorageFault;
use crate::plan::TransactionPlan;
use crate::statement::diff_insertions;
use crate::statement::follower_insertions;
use crate::statement::replace_and_log_statements;
use crate::statement::replacement;
use crate::statement::statement_views;
use crate::statement::Statement;
use crate::statement::StatementView;
use crate::text::string_views;
use vstd::prelude::*;

verus! {

/// The contents of a store as contracts see them.
pub struct StoreView {
    /// The current snapshot, in the order of insertion.
    pub followers: Seq<FollowerView>,
    /// The diff log, oldest entry first.
    pub diffs: Seq<DiffEventView>,
    /// The remembered handles, oldest first.
    pub handles: Seq<Seq<char>>,
}

/// The detail of the error with which the store refuses a follower whose
/// identity is already in the snapshot.
pub const DUPLICATE_IDENTITY: &'static str = "UNIQUE constraint failed: followers.did";

/// The detail of the error with which the store refuses a follower whose
/// identity is already in the snapshot.
pub open spec fn duplicate_identity() -> Seq<char> {
    DUPLICATE_IDENTITY@
}

impl StoreView {
    /// A store that was never written to.
    pub open spec fn empty() -> StoreView {
        StoreView { followers: Seq::empty(), diffs: Seq::empty(), handles: Seq::empty() }
    }

    /// Whether the store takes the statement.  The only statement it can
    /// refuse is the insertion of a follower whose identity the snapshot
    /// already holds.
    pub open spec fn accepts(self, statement: StatementView) -> bool {
        match statement {
            StatementView::InsertFollower(f) => !follows(self.followers, f.did),
            _ => true,
        }
    }

    /// The contents after a statement that the store takes.
    pub open spec fn apply(self, statement: StatementView) -> StoreView {
        match statement {
            StatementView::DeleteFollowers => StoreView { followers: Seq::empty(), ..self },
            StatementView::InsertFollower(f) => StoreView {
                followers: self.followers.push(f),
                ..self
            },
            StatementView::InsertDiff(e) => StoreView { diffs: self.diffs.push(e), ..self },
            StatementView::InsertHandle(h) => StoreView { handles: self.handles.push(h), ..self },
            _ => self,
        }
    }

    /// The contents after the statements have run in order, or `None` when
    /// one of them is refused.
    pub open spec fn run(self, statements: Seq<StatementView>) -> Option<StoreView>
        decreases statements.len(),
    {
        if statements.len() == 0 {
            Some(self)
        } else {
            match self.run(statements.drop_last()) {
                Some(state) => if state.accepts(statements.last()) {
                    Some(state.apply(statements.last()))
                } else {
                    None
                },
                None => None,
            }
        }
    }

    /// The contents after a transaction of the statements: all of them have
    /// taken effect, or none has.
    pub open spec fn transact(self, statements: Seq<StatementView>) -> StoreView {
        match self.run(statements) {
            Some(state) => state,
            None => self,
        }
    }

    /// The contents once `records` have replaced the snapshot and `events`
    /// have been appended to the diff log.
    pub open spec fn replaced(self, records: Seq<FollowerView>, events: Seq<DiffEventView>) -> StoreView {
        StoreView { followers: records, diffs: self.diffs + events, handles: self.handles }
    }
}

/// Once a statement has been refused, nothing that follows can save the run.
pub proof fn lemma_refusal_is_final(state: StoreView, statements: Seq<StatementView>, upto: int)
    requires
        0 <= upto <= statements.len(),
        state.run(statements.take(upto)) is None,
    ensures
        state.run(statements) is None,
    decreases statements.len() - upto,
{
    if upto == statements.len() {
        assert(statements.take(upto) =~= statements);
    } else {
        assert(statements.take(upto + 1).drop_last() =~= statements.take(upto));
        lemma_refusal_is_final(state, statements, upto + 1);
    }
}

/// Atomicity: a transaction in which a statement is refused, after however
/// many statements that went through, leaves the contents as they were.
pub proof fn lemma_refused_transaction_changes_nothing(
    state: StoreView,
    statements: Seq<StatementView>,
    upto: int,
)
    requires
        0 <= upto <= statements.len(),
        state.run(statements.take(upto)) is None,
    ensures
        state.transact(statements) == state,
{
    lemma_refusal_is_final(state, statements, upto);
}

/// The diff log is append-only: whatever statements run, the entries that
/// were there stay where they were.
pub proof fn lemma_log_only_grows(state: StoreView, statements: Seq<StatementView>)
    ensures
        state.run(statements) matches Some(reached) ==> state.diffs.is_prefix_of(reached.diffs),
        state.diffs.is_prefix_of(state.transact(statements).diffs),
    decreases statements.len(),
{
    if statements.len() > 0 {
        lemma_log_only_grows(state, statements.drop_last());
    }
}

/// Whatever statements run, a snapshot without repeated identities stays
/// one.
pub proof fn lemma_snapshot_stays_distinct(state: StoreView, statements: Seq<StatementView>)
    requires
        distinct(state.followers),
    ensures
        state.run(statements) matches Some(reached) ==> distinct(reached.followers),
        distinct(state.transact(statements).followers),
    decreases statements.len(),
{
    if statements.len() > 0 {
        lemma_snapshot_stays_distinct(state, statements.drop_last());
        match state.run(statements.drop_last()) {
            Some(reached) => {
                match statements.last() {
                    StatementView::InsertFollower(f) => {
                        if reached.accepts(statements.last()) {
                            let next = reached.followers.push(f);
                            assert(next.drop_last() =~= reached.followers);
                            lemma_distinct_step(next);
                        }
                    },
                    StatementView::DeleteFollowers => {
                        assert(identities(Seq::<FollowerView>::empty()) =~= Seq::<Seq<char>>::empty());
                    },
                    _ => {},
                }
            },
            None => {},
        }
    }
}

/// After the deletion of the old rows, inserting `records` one by one goes
/// through exactly when their identities are distinct, and then the snapshot
/// is `records`.
proof fn lemma_insertions_run(state: StoreView, records: Seq<FollowerView>)
    ensures
        distinct(records) ==> state.run(
            seq![StatementView::DeleteFollowers] + follower_insertions(records),
        ) == Some(StoreView { followers: records, ..state }),
        !distinct(records) ==> state.run(
            seq![StatementView::DeleteFollowers] + follower_insertions(records),
        ) is None,
    decreases records.len(),
{
    let plan = seq![StatementView::DeleteFollowers] + follower_insertions(records);
    if records.len() == 0 {
        assert(plan.drop_last() =~= Seq::<StatementView>::empty());
        assert(state.run(plan.drop_last()) == Some(state));
        assert(records =~= Seq::<FollowerView>::empty());
    } else {
        let front = records.drop_last();
        assert(plan.drop_last() =~= seq![StatementView::DeleteFollowers] + follower_insertions(
            front,
        ));
        assert(plan.last() == StatementView::InsertFollower(records.last()));
        lemma_insertions_run(state, front);
        lemma_distinct_step(records);
        assert(front.push(records.last()) =~= records);
    }
}

/// Appending events to the diff log is never refused and touches nothing
/// but the log.
proof fn lemma_appends_run(state: StoreView, before: Seq<StatementView>, events: Seq<DiffEventView>)
    ensures
        state.run(before + diff_insertions(events)) == match state.run(before) {
            Some(reached) => Some(StoreView { diffs: reached.diffs + events, ..reached }),
            None => None,
        },
    decreases events.len(),
{
    let plan = before + diff_insertions(events);
    if events.len() == 0 {
        assert(plan =~= before);
        match state.run(before) {
            Some(reached) => {
                assert(reached.diffs + events =~= reached.diffs);
            },
            None => {},
        }
    } else {
        let front = events.drop_last();
        assert(plan.drop_last() =~= before + diff_insertions(front));
        assert(plan.last() == StatementView::InsertDiff(events.last()));
        lemma_appends_run(state, before, front);
        match state.run(before) {
            Some(reached) => {
                assert((reached.diffs + front).push(events.last()) =~= reached.diffs + events);
            },
            None => {},
        }
    }
}

/// The statements of a replacement go through exactly when the new records
/// have distinct identities.  Then the snapshot is the new records, the log
/// has grown by the events and by nothing else, and the handles are as they
/// were.
pub proof fn lemma_replacement_runs(
    state: StoreView,
    records: Seq<FollowerView>,
    events: Seq<DiffEventView>,
)
    ensures
        distinct(records) ==> state.run(replacement(records, events)) == Some(
            state.replaced(records, events),
        ),
        !distinct(records) ==> state.run(replacement(records, events)) is None,
{
    lemma_insertions_run(state, records);
    lemma_appends_run(
        state,
        seq![StatementView::DeleteFollowers] + follower_insertions(records),
        events,
    );
}

/// The rows of the three tables.
struct Tables {
    followers: Vec<Follower>,
    diffs: Vec<DiffEvent>,
    handles: Vec<String>,
}

impl View for Tables {
    type V = StoreView;

    closed spec fn view(&self) -> StoreView {
        StoreView {
            followers: follower_views(self.followers@),
            diffs: event_views(self.diffs@),
            handles: string_views(self.handles@),
        }
    }
}

fn copy_followers(list: &Vec<Follower>) -> (copy: Vec<Follower>)
    ensures
        copy@ == list@,
{
    let mut copy: Vec<Follower> = Vec::new();
    let mut i: usize = 0;
    while i < list.len()
        invariant
            i <= list.len(),
            copy@ =~= list@.take(i as int),
        decreases list.len() - i,
    {
        copy.push(list[i].clone());
        i += 1;
    }
    assert(list@.take(list.len() as int) =~= list@);
    copy
}

fn copy_events(list: &Vec<DiffEvent>) -> (copy: Vec<DiffEvent>)
    ensures
        copy@ == list@,
{
    let mut copy: Vec<DiffEvent> = Vec::new();
    let mut i: usize = 0;
    while i < list.len()
        invariant
            i <= list.len(),
            copy@ =~= list@.take(i as int),
        decreases list.len() - i,
    {
        copy.push(list[i].clone());
        i += 1;
    }
    assert(list@.take(list.len() as int) =~= list@);
    copy
}

fn copy_statements(list: &Vec<Statement>) -> (copy: Vec<Statement>)
    ensures
        copy@ == list@,
{
    let mut copy: Vec<Statement> = Vec::new();
    let mut i: usize = 0;
    while i < list.len()
        invariant
            i <= list.len(),
            copy@ =~= list@.take(i as int),
        decreases list.len() - i,
    {
        copy.push(list[i].clone());
        i += 1;
    }
    assert(list@.take(list.len() as int) =~= list@);
    copy
}

fn copy_strings(list: &Vec<String>) -> (copy: Vec<String>)
    ensures
        copy@ == list@,
{
    let mut copy: Vec<String> = Vec::new();
    let mut i: usize = 0;
    while i < list.len()
        invariant
            i <= list.len(),
            copy@ =~= list@.take(i as int),
        decreases list.len() - i,
    {
        copy.push(list[i].clone());
        i += 1;
    }
    assert(list@.take(list.len() as int) =~= list@);
    copy
}

impl Tables {
    fn empty() -> (tables: Tables)
        ensures
            tables@ == StoreView::empty(),
    {
        let tables = Tables { followers: Vec::new(), diffs: Vec::new(), handles: Vec::new() };
        assert(tables@.followers =~= Seq::<FollowerView>::empty());
        assert(tables@.diffs =~= Seq::<DiffEventView>::empty());
        assert(tables@.handles =~= Seq::<Seq<char>>::empty());
        tables
    }

    fn duplicate(&self) -> (copy: Tables)
        ensures
            copy@ == self@,
    {
        Tables {
            followers: copy_followers(&self.followers),
            diffs: copy_events(&self.diffs),
            handles: copy_strings(&self.handles),
        }
    }

    fn apply(&mut self, statement: &Statement) -> (done: Result<(), AppError>)
        requires
            distinct(old(self)@.followers),
        ensures
            distinct(final(self)@.followers),
            old(self)@.accepts(statement@) ==> done is Ok && final(self)@ == old(self)@.apply(
                statement@,
            ),
            !old(self)@.accepts(statement@) ==> final(self)@ == old(self)@ && (done matches Err(e)
                && e@ == AppErrorView::Database(duplicate_identity())),
    {
        match statement {
            Statement::DeleteFollowers => {
                self.followers = Vec::new();
                assert(self@.followers =~= Seq::<FollowerView>::empty());
                Ok(())
            },
            Statement::InsertFollower(f) => {
                if is_follower(&self.followers, &f.did) {
                    Err(AppError::Database(DUPLICATE_IDENTITY.to_owned()))
                } else {
                    let ghost before = self@.followers;
                    self.followers.push(f.clone());
                    proof {
                        assert(self@.followers =~= before.push(f@));
                        assert(self@.followers.drop_last() =~= before);
                        lemma_distinct_step(self@.followers);
                    }
                    Ok(())
                }
            },
            Statement::InsertDiff(e) => {
                let ghost before = self@.diffs;
                self.diffs.push(e.clone());
                assert(self@.diffs =~= before.push(e@));
                Ok(())
            },
            Statement::InsertHandle(h) => {
                let ghost before = self@.handles;
                self.handles.push(h.clone());
                assert(self@.handles =~= before.push(h@));
                Ok(())
            },
            _ => Ok(()),
        }
    }
}

/// The store: the current snapshot, the diff log and the remembered handles.
/// No identity occurs twice in the snapshot.  A store can be told to let its
/// next transaction fail at a given statement, as a failing disk would.
pub struct SnapshotStore {
    tables: Tables,
    fault: Option<StorageFault>,
}

/// A transaction on a store: the statements it has run so far have taken
/// effect on its own copy of the tables only.
pub struct Transaction {
    tables: Tables,
}

impl View for SnapshotStore {
    type V = StoreView;

    closed spec fn view(&self) -> StoreView {
        self.tables@
    }
}

impl View for Transaction {
    type V = StoreView;

    closed spec fn view(&self) -> StoreView {
        self.tables@
    }
}

impl Transaction {
    #[verifier::type_invariant]
    spec fn well_formed(self) -> bool {
        distinct(self.tables@.followers)
    }

    /// Runs one statement inside the transaction.  A follower whose identity
    /// the snapshot already holds is refused, and the transaction stays as
    /// it was.
    pub fn execute(&mut self, statement: &Statement) -> (done: Result<(), AppError>)
        ensures
            distinct(final(self)@.followers),
            old(self)@.accepts(statement@) ==> done is Ok && final(self)@ == old(self)@.apply(
                statement@,
            ),
            !old(self)@.accepts(statement@) ==> final(self)@ == old(self)@ && (done matches Err(e)
                && e@ == AppErrorView::Database(duplicate_identity())),
    {
        proof {
            use_type_invariant(&*self);
        }
        let mut tables = Tables::empty();
        std::mem::swap(&mut tables, &mut self.tables);
        let done = tables.apply(statement);
        self.tables = tables;
        done
    }
}

impl SnapshotStore {
    #[verifier::type_invariant]
    spec fn well_formed(self) -> bool {
        distinct(self.tables@.followers)
    }

    /// The fault that will strike the next transaction that the store runs,
    /// if one was injected.
    pub closed spec fn armed_fault(&self) -> Option<Fault> {
        fault_view(self.fault)
    }

    /// A store that was never written to.
    pub fn new() -> (store: SnapshotStore)
        ensures
            store@ == StoreView::empty(),
            store.armed_fault() is None,
    {
        SnapshotStore { tables: Tables::empty(), fault: None }
    }

    /// Makes the next transaction that the store runs fail at the statement
    /// at position `fault.at`, with the error `fault.error`, as a disk that
    /// fails in the middle of a write would.  The fault strikes once: the
    /// transaction uses it up, whether it reaches that statement or not.
    pub fn inject_fault(&mut self, fault: StorageFault)
        ensures
            final(self)@ == old(self)@,
            final(self).armed_fault() == Some(fault@),
    {
        proof {
            use_type_invariant(&*self);
        }
        self.fault = Some(fault);
    }

    /// A store whose snapshot is `records`, with an empty log.  Records in
    /// which an identity occurs twice are no snapshot and are refused.
    pub fn from_snapshot(records: Vec<Follower>) -> (made: Result<SnapshotStore, AppError>)
        ensures
            distinct(follower_views(records@)) ==> (made matches Ok(store) && store@
                == StoreView::empty().replaced(follower_views(records@), Seq::empty())
                && store.armed_fault() is None),
            !distinct(follower_views(records@)) ==> (made matches Err(e) && e@
                == AppErrorView::Database(duplicate_identity())),
    {
        if has_distinct_identities(&records) {
            let tables = Tables { followers: records, diffs: Vec::new(), handles: Vec::new() };
            assert(tables@.diffs =~= Seq::<DiffEventView>::empty());
            assert(tables@.handles =~= Seq::<Seq<char>>::empty());
            assert(StoreView::empty().diffs + Seq::<DiffEventView>::empty() =~= Seq::<
                DiffEventView,
            >::empty());
            Ok(SnapshotStore { tables, fault: None })
        } else {
            Err(AppError::Database(DUPLICATE_IDENTITY.to_owned()))
        }
    }

    /// The current snapshot: empty if nothing was ever captured.  No
    /// identity occurs twice in it.
    pub fn load_current(&self) -> (snapshot: Vec<Follower>)
        ensures
            follower_views(snapshot@) == self@.followers,
            distinct(follower_views(snapshot@)),
    {
        proof {
            use_type_invariant(self);
        }
        copy_followers(&self.tables.followers)
    }

    /// The diff log, oldest entry first.
    pub fn diff_log(&self) -> (log: Vec<DiffEvent>)
        ensures
            event_views(log@) == self@.diffs,
    {
        copy_events(&self.tables.diffs)
    }

    /// The remembered handles, oldest first.
    pub fn handles(&self) -> (handles: Vec<String>)
        ensures
            string_views(handles@) == self@.handles,
    {
        copy_strings(&self.tables.handles)
    }

    /// The handle that was remembered last, if any.
    pub fn latest_handle(&self) -> (handle: Option<String>)
        ensures
            self@.handles.len() == 0 ==> handle is None,
            self@.handles.len() > 0 ==> (handle matches Some(h) && h@ == self@.handles.last()),
    {
        let n = self.tables.handles.len();
        if n == 0 {
            None
        } else {
            Some(self.tables.handles[n - 1].clone())
        }
    }

    /// Opens a transaction on the present contents.
    pub fn begin(&self) -> (tx: Transaction)
        ensures
            tx@ == self@,
    {
        proof {
            use_type_invariant(self);
        }
        Transaction { tables: self.tables.duplicate() }
    }

    /// Makes the contents of the transaction the contents of the store.
    pub fn commit(&mut self, tx: Transaction)
        ensures
            final(self)@ == tx@,
            final(self).armed_fault() == old(self).armed_fault(),
    {
        proof {
            use_type_invariant(&tx);
        }
        self.tables = tx.tables;
    }

    /// Runs the statements in one transaction, step by step as the plan of
    /// the transaction says.  If the store refuses one of them, or if an
    /// injected fault strikes, none takes effect, the store stays exactly as
    /// it was, and the error is passed on.  An injected fault is used up.
    pub fn run_transaction(&mut self, statements: &Vec<Statement>) -> (done: Result<(), AppError>)
        ensures
            (final(self)@, failure_of(done)) == session(
                old(self)@,
                old(self)@,
                PlanView::fresh(statement_views(statements@)),
                old(self).armed_fault(),
            ),
            final(self).armed_fault() is None,
    {
        proof {
            use_type_invariant(&*self);
        }
        let ghost start = self@;
        let ghost wanted = statement_views(statements@);
        let ghost armed = self.armed_fault();
        let ghost goal = session(start, start, PlanView::fresh(wanted), armed);
        let mut fault: Option<StorageFault> = None;
        std::mem::swap(&mut fault, &mut self.fault);
        let mut tx = self.begin();
        let mut plan = TransactionPlan::new(copy_statements(statements));
        let mut position: usize = 0;
        loop
            invariant
                start == old(self)@,
                armed == old(self).armed_fault(),
                goal == session(start, start, PlanView::fresh(wanted), armed),
                self@ == start,
                self.armed_fault() is None,
                fault_view(fault) == armed,
                wanted == statement_views(statements@),
                plan@.statements == wanted,
                plan@.done <= wanted.len(),
                plan@.failure is None ==> position == plan@.done,
                session(start, tx@, plan@, armed) == goal,
            decreases wanted.len() - plan@.done, (if plan@.failure is None {
                1nat
            } else {
                0nat
            }),
        {
            match plan.step() {
                Step::Execute(statement) => {
                    let struck = fault_at(&fault, position);
                    let outcome = match struck {
                        Some(failure) => Err(failure),
                        None => tx.execute(&statement),
                    };
                    plan.record(outcome);
                    if position < statements.len() {
                        position = position + 1;
                    }
                },
                Step::Commit => {
                    self.commit(tx);
                    return Ok(());
                },
                Step::Rollback(failure) => {
                    return Err(failure);
                },
            }
        }
    }

    /// Replaces the snapshot by `new_records` and appends `events` to the
    /// diff log, as one transaction: the old rows are deleted, the new ones
    /// inserted and the events logged together, or nothing happens at all.
    /// The write fails when an identity occurs twice in `new_records`, and
    /// when an injected fault strikes one of its statements.
    pub fn replace_and_log(&mut self, new_records: &Vec<Follower>, events: &Vec<DiffEvent>) -> (done:
        Result<(), AppError>)
        ensures
            (final(self)@, failure_of(done)) == session(
                old(self)@,
                old(self)@,
                PlanView::fresh(
                    replacement(follower_views(new_records@), event_views(events@)),
                ),
                old(self).armed_fault(),
            ),
            final(self).armed_fault() is None,
            done is Ok ==> final(self)@ == old(self)@.replaced(
                follower_views(new_records@),
                event_views(events@),
            ),
            done is Err ==> final(self)@ == old(self)@,
            strikes(old(self).armed_fault(), 1 + new_records@.len() + events@.len()) ==> done
                is Err,
            old(self).armed_fault() is None ==> (done is Ok <==> distinct(
                follower_views(new_records@),
            )),
            old(self).armed_fault() is None ==> (done matches Err(e) ==> e@
                == AppErrorView::Database(duplicate_identity())),
    {
        proof {
            let plan = replacement(follower_views(new_records@), event_views(events@));
            lemma_replacement_runs(self@, follower_views(new_records@), event_views(events@));
            lemma_session_verdict(self@, plan, self.armed_fault());
            if strikes(self.armed_fault(), plan.len()) && self@.run(
                plan.take(self.armed_fault()->0.at as int),
            ) is None {
                lemma_refusal_is_final(self@, plan, self.armed_fault()->0.at as int);
            }
        }
        let plan = replace_and_log_statements(new_records, events);
        self.run_transaction(&plan)
    }

    /// Replaces the snapshot by `new_records` and leaves the diff log as it
    /// is.  This is the write of a first capture, which has nothing to be
    /// compared with.  It fails as `replace_and_log` does.
    pub fn capture_only(&mut self, new_records: &Vec<Follower>) -> (done: Result<(), AppError>)
        ensures
            (final(self)@, failure_of(done)) == session(
                old(self)@,
                old(self)@,
                PlanView::fresh(replacement(follower_views(new_records@), Seq::empty())),
                old(self).armed_fault(),
            ),
            final(self).armed_fault() is None,
            done is Ok ==> final(self)@ == old(self)@.replaced(
                follower_views(new_records@),
                Seq::empty(),
            ),
            done is Err ==> final(self)@ == old(self)@,
            strikes(old(self).armed_fault(), 1 + new_records@.len()) ==> done is Err,
            old(self).armed_fault() is None ==> (done is Ok <==> distinct(
                follower_views(new_records@),
            )),
            old(self).armed_fault() is None ==> (done matches Err(e) ==> e@
                == AppErrorView::Database(duplicate_identity())),
    {
        let events: Vec<DiffEvent> = Vec::new();
        assert(event_views(events@) =~= Seq::<DiffEventView>::empty());
        self.replace_and_log(new_records, &events)
    }
}

/// The fault as contracts see it, if there is one.
pub open spec fn fault_view(fault: Option<StorageFault>) -> Option<Fault> {
    match fault {
        Some(f) => Some(f@),
        None => None,
    }
}

/// The error with which the fault strikes the statement at `position`, if
/// it strikes there.
fn fault_at(fault: &Option<StorageFault>, position: usize) -> (struck: Option<AppError>)
    ensures
        (fault_view(*fault) matches Some(f) && f.at == position) ==> (struck matches Some(e)
            && e@ == fault_view(*fault)->0.error),
        !(fault_view(*fault) matches Some(f) && f.at == position) ==> struck is None,
{
    match fault {
        Some(f) => if f.at == position {
            Some(f.error.clone())
        } else {
            None
        },
        None => None,
    }
}

} // verus!
