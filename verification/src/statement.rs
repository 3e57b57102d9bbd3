//! The statements that the snapshot store runs, with the SQL text and the
//! bound values under which each one reaches the database.

use crate::follower::DiffEvent;
use crate::follower::DiffEventView;
use crate::follower::Follower;
use crate::follower::FollowerView;
use crate::text::string_views;
use crate::timestamp::Timestamp;
use vstd::prelude::*;

verus! {

/// The statement that creates the table of current followers.
pub const CREATE_FOLLOWERS_TABLE: &'static str =
    "CREATE TABLE IF NOT EXISTS followers (did TEXT PRIMARY KEY, handle TEXT NOT NULL, indexed_at DATETIME NOT NULL)";

/// The statement that creates the table of the diff log.
pub const CREATE_DIFFS_TABLE: &'static str =
    "CREATE TABLE IF NOT EXISTS follower_diffs (id INTEGER PRIMARY KEY AUTOINCREMENT, did TEXT NOT NULL, handle TEXT NOT NULL, action TEXT NOT NULL, timestamp DATETIME NOT NULL)";

/// The statement that creates the table of settings.
pub const CREATE_CONFIG_TABLE: &'static str =
    "CREATE TABLE IF NOT EXISTS config (key TEXT PRIMARY KEY, value TEXT NOT NULL)";

/// The statement that empties the table of current followers.
pub const DELETE_FOLLOWERS: &'static str = "DELETE FROM followers";

/// The statement that adds a follower: identity, handle, first sighting.
pub const INSERT_FOLLOWER: &'static str =
    "INSERT INTO followers (did, handle, indexed_at) VALUES (?1, ?2, ?3)";

/// The statement that logs an event: identity, handle, action, instant.
pub const INSERT_DIFF: &'static str =
    "INSERT INTO follower_diffs (did, handle, action, timestamp) VALUES (?1, ?2, ?3, ?4)";

/// The statement that remembers a handle.
pub const INSERT_HANDLE: &'static str = "INSERT INTO handles (handle) VALUES (?1)";

/// The query that reads the current snapshot.
pub const SELECT_FOLLOWERS: &'static str = "SELECT did, handle, indexed_at FROM followers";

/// The query that reads the diff log, oldest entry first.
pub const SELECT_DIFFS: &'static str =
    "SELECT did, handle, action, timestamp FROM follower_diffs ORDER BY id";

/// The query that reads the remembered handles, oldest first.
pub const SELECT_HANDLES: &'static str = "SELECT handle FROM handles ORDER BY id";

/// One statement of the store.  The first three lay out the tables; the
/// others change their rows.
#[derive(Debug, PartialEq, Eq)]
pub enum Statement {
    /// Creates the table of current followers, keyed by identity.
    CreateFollowersTable,
    /// Creates the append-only table of follow and unfollow events.
    CreateDiffsTable,
    /// Creates the table of settings.
    CreateConfigTable,
    /// Removes every row of the table of current followers.
    DeleteFollowers,
    /// Adds one follower to the table of current followers.
    InsertFollower(Follower),
    /// Appends one event to the diff log.
    InsertDiff(DiffEvent),
    /// Remembers a handle that the user typed in.
    InsertHandle(String),
}

/// A statement as contracts see it.
pub enum StatementView {
    CreateFollowersTable,
    CreateDiffsTable,
    CreateConfigTable,
    DeleteFollowers,
    InsertFollower(FollowerView),
    InsertDiff(DiffEventView),
    InsertHandle(Seq<char>),
}

impl View for Statement {
    type V = StatementView;

    open spec fn view(&self) -> StatementView {
        match self {
            Statement::CreateFollowersTable => StatementView::CreateFollowersTable,
            Statement::CreateDiffsTable => StatementView::CreateDiffsTable,
            Statement::CreateConfigTable => StatementView::CreateConfigTable,
            Statement::DeleteFollowers => StatementView::DeleteFollowers,
            Statement::InsertFollower(f) => StatementView::InsertFollower(f@),
            Statement::InsertDiff(e) => StatementView::InsertDiff(e@),
            Statement::InsertHandle(h) => StatementView::InsertHandle(h@),
        }
    }
}

impl Clone for Statement {
    fn clone(&self) -> (copy: Self)
        ensures
            copy == *self,
    {
        match self {
            Statement::CreateFollowersTable => Statement::CreateFollowersTable,
            Statement::CreateDiffsTable => Statement::CreateDiffsTable,
            Statement::CreateConfigTable => Statement::CreateConfigTable,
            Statement::DeleteFollowers => Statement::DeleteFollowers,
            Statement::InsertFollower(f) => Statement::InsertFollower(f.clone()),
            Statement::InsertDiff(e) => Statement::InsertDiff(e.clone()),
            Statement::InsertHandle(h) => Statement::InsertHandle(h.clone()),
        }
    }
}

/// The views of a list of statements, in order.
pub open spec fn statement_views(list: Seq<Statement>) -> Seq<StatementView> {
    list.map_values(|s: Statement| s@)
}

impl StatementView {
    /// The SQL text of the statement.  Values are bound to `?1`, `?2`, ...
    pub open spec fn sql(self) -> Seq<char> {
        match self {
            StatementView::CreateFollowersTable => CREATE_FOLLOWERS_TABLE@,
            StatementView::CreateDiffsTable => CREATE_DIFFS_TABLE@,
            StatementView::CreateConfigTable => CREATE_CONFIG_TABLE@,
            StatementView::DeleteFollowers => DELETE_FOLLOWERS@,
            StatementView::InsertFollower(_) => INSERT_FOLLOWER@,
            StatementView::InsertDiff(_) => INSERT_DIFF@,
            StatementView::InsertHandle(_) => INSERT_HANDLE@,
        }
    }

    /// The values bound to the statement, in the order of their
    /// placeholders.  Instants are bound as RFC 3339 text.
    pub open spec fn params(self) -> Seq<Seq<char>> {
        match self {
            StatementView::InsertFollower(f) => seq![f.did, f.handle, f.indexed_at.rfc3339()],
            StatementView::InsertDiff(e) => seq![
                e.did,
                e.handle,
                e.action.text(),
                e.timestamp.rfc3339(),
            ],
            StatementView::InsertHandle(h) => seq![h],
            _ => Seq::empty(),
        }
    }
}

/// The text under which an instant is stored.
pub fn datetime_to_sqlite(dt: &Timestamp) -> (text: String)
    ensures
        text@ == dt.rfc3339(),
{
    dt.to_rfc3339()
}

impl Statement {
    /// The SQL text of the statement.
    pub fn sql(&self) -> (text: &'static str)
        ensures
            text@ == self@.sql(),
    {
        match self {
            Statement::CreateFollowersTable => CREATE_FOLLOWERS_TABLE,
            Statement::CreateDiffsTable => CREATE_DIFFS_TABLE,
            Statement::CreateConfigTable => CREATE_CONFIG_TABLE,
            Statement::DeleteFollowers => DELETE_FOLLOWERS,
            Statement::InsertFollower(_) => INSERT_FOLLOWER,
            Statement::InsertDiff(_) => INSERT_DIFF,
            Statement::InsertHandle(_) => INSERT_HANDLE,
        }
    }

    /// The values to bind, in the order of the placeholders.
    pub fn params(&self) -> (values: Vec<String>)
        ensures
            string_views(values@) == self@.params(),
    {
        let mut values: Vec<String> = Vec::new();
        match self {
            Statement::InsertFollower(f) => {
                values.push(f.did.clone());
                values.push(f.handle.clone());
                values.push(datetime_to_sqlite(&f.indexed_at));
            },
            Statement::InsertDiff(e) => {
                values.push(e.did.clone());
                values.push(e.handle.clone());
                values.push(e.action.as_str().to_owned());
                values.push(datetime_to_sqlite(&e.timestamp));
            },
            Statement::InsertHandle(h) => {
                values.push(h.clone());
            },
            _ => {},
        }
        assert(string_views(values@) =~= self@.params());
        values
    }
}

/// The statements that lay out the tables of a fresh database.
pub open spec fn schema() -> Seq<StatementView> {
    seq![
        StatementView::CreateFollowersTable,
        StatementView::CreateDiffsTable,
        StatementView::CreateConfigTable,
    ]
}

/// The statements that lay out the tables of a fresh database.  Each one
/// leaves an existing table as it is.
pub fn schema_statements() -> (statements: Vec<Statement>)
    ensures
        statement_views(statements@) == schema(),
{
    let mut statements: Vec<Statement> = Vec::new();
    statements.push(Statement::CreateFollowersTable);
    statements.push(Statement::CreateDiffsTable);
    statements.push(Statement::CreateConfigTable);
    assert(statement_views(statements@) =~= schema());
    statements
}

/// One insertion per follower, in order.
pub open spec fn follower_insertions(records: Seq<FollowerView>) -> Seq<StatementView> {
    records.map_values(|f: FollowerView| StatementView::InsertFollower(f))
}

/// One log entry per event, in order.
pub open spec fn diff_insertions(events: Seq<DiffEventView>) -> Seq<StatementView> {
    events.map_values(|e: DiffEventView| StatementView::InsertDiff(e))
}

/// The statements that replace the snapshot by `records` and append
/// `events` to the diff log: first the deletion of the old rows, then one
/// insertion per new follower, then one log entry per event.
pub open spec fn replacement(records: Seq<FollowerView>, events: Seq<DiffEventView>) -> Seq<
    StatementView,
> {
    seq![StatementView::DeleteFollowers] + follower_insertions(records) + diff_insertions(events)
}

/// The statements that replace the snapshot by `new_records` and append
/// `events` to the diff log.  They are meant to run in one transaction.
pub fn replace_and_log_statements(new_records: &Vec<Follower>, events: &Vec<DiffEvent>) -> (plan:
    Vec<Statement>)
    ensures
        statement_views(plan@) == replacement(
            crate::follower::follower_views(new_records@),
            crate::follower::event_views(events@),
        ),
{
    let ghost records = crate::follower::follower_views(new_records@);
    let ghost entries = crate::follower::event_views(events@);
    let mut plan: Vec<Statement> = Vec::new();
    plan.push(Statement::DeleteFollowers);
    let mut i: usize = 0;
    while i < new_records.len()
        invariant
            i <= new_records.len(),
            records == crate::follower::follower_views(new_records@),
            statement_views(plan@) =~= seq![StatementView::DeleteFollowers] + follower_insertions(
                records.take(i as int),
            ),
        decreases new_records.len() - i,
    {
        let ghost before = plan@;
        plan.push(Statement::InsertFollower(new_records[i].clone()));
        proof {
            let next = StatementView::InsertFollower(records[i as int]);
            assert(records.take(i + 1) =~= records.take(i as int).push(records[i as int]));
            assert(statement_views(plan@) =~= statement_views(before).push(next));
            assert(follower_insertions(records.take(i + 1)) =~= follower_insertions(
                records.take(i as int),
            ).push(next));
        }
        i += 1;
    }
    assert(records.take(new_records.len() as int) =~= records);
    let mut k: usize = 0;
    while k < events.len()
        invariant
            k <= events.len(),
            entries == crate::follower::event_views(events@),
            statement_views(plan@) =~= seq![StatementView::DeleteFollowers] + follower_insertions(
                records,
            ) + diff_insertions(entries.take(k as int)),
        decreases events.len() - k,
    {
        let ghost before = plan@;
        plan.push(Statement::InsertDiff(events[k].clone()));
        proof {
            let next = StatementView::InsertDiff(entries[k as int]);
            assert(entries.take(k + 1) =~= entries.take(k as int).push(entries[k as int]));
            assert(statement_views(plan@) =~= statement_views(before).push(next));
            assert(diff_insertions(entries.take(k + 1)) =~= diff_insertions(
                entries.take(k as int),
            ).push(next));
        }
        k += 1;
    }
    assert(entries.take(events.len() as int) =~= entries);
    plan
}

} // verus!
