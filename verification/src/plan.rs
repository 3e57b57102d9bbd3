//! The discipline of a transactional write, as a plan that says at every
//! point what to do next.
//!
//! Whoever holds the connection to the database does what the plan says and
//! reports how each statement went.  The plan asks for the commit only when
//! every statement has gone through, and for the rollback as soon as one
//! has failed, so the database never keeps a part of the write.

use crate::error::AppError;
use crate::error::AppErrorView;
use crate::statement::statement_views;
use crate::statement::Statement;
use crate::statement::StatementView;
use crate::store::duplicate_identity;
use crate::store::lemma_refusal_is_final;
use crate::store::StoreView;
use vstd::prelude::*;

verus! {

/// What to do next in a transaction.
#[derive(Debug, PartialEq, Eq)]
pub enum Step {
    /// Run this statement and report how it went.
    Execute(Statement),
    /// Every statement has gone through: commit.
    Commit,
    /// A statement has failed with this error: roll back and pass it on.
    Rollback(AppError),
}

/// A step as contracts see it.
pub enum StepView {
    Execute(StatementView),
    Commit,
    Rollback(AppErrorView),
}

impl View for Step {
    type V = StepView;

    open spec fn view(&self) -> StepView {
        match self {
            Step::Execute(statement) => StepView::Execute(statement@),
            Step::Commit => StepView::Commit,
            Step::Rollback(failure) => StepView::Rollback(failure@),
        }
    }
}

/// A plan as contracts see it.
pub struct PlanView {
    /// The statements of the transaction, in order.
    pub statements: Seq<StatementView>,
    /// How many of them have gone through.
    pub done: nat,
    /// The error with which a statement has failed, if one has.
    pub failure: Option<AppErrorView>,
}

/// The failure that an outcome reports, if it reports one.
pub open spec fn failure_of<T>(outcome: Result<T, AppError>) -> Option<AppErrorView> {
    match outcome {
        Ok(_) => None,
        Err(failure) => Some(failure@),
    }
}

impl PlanView {
    /// The plan before anything has run.
    pub open spec fn fresh(statements: Seq<StatementView>) -> PlanView {
        PlanView { statements, done: 0, failure: None }
    }

    /// What to do next: roll back after a failure, otherwise run the next
    /// statement, and commit when none is left.
    pub open spec fn step(self) -> StepView {
        match self.failure {
            Some(failure) => StepView::Rollback(failure),
            None => if self.done < self.statements.len() {
                StepView::Execute(self.statements[self.done as int])
            } else {
                StepView::Commit
            },
        }
    }

    /// The plan after the statement that was asked for has gone through
    /// (`None`) or has failed (`Some`).  Where no statement was asked for,
    /// the report changes nothing.
    pub open spec fn record(self, failed: Option<AppErrorView>) -> PlanView {
        if self.failure is Some || self.done >= self.statements.len() {
            self
        } else {
            match failed {
                None => PlanView { done: self.done + 1, ..self },
                Some(failure) => PlanView { failure: Some(failure), ..self },
            }
        }
    }
}

/// A storage fault: the statement at position `at` of the next transaction
/// fails with `error`, whatever the statement is.
#[derive(Debug, PartialEq, Eq)]
pub struct StorageFault {
    pub at: usize,
    pub error: AppError,
}

/// A storage fault as contracts see it.
pub struct Fault {
    pub at: nat,
    pub error: AppErrorView,
}

impl View for StorageFault {
    type V = Fault;

    open spec fn view(&self) -> Fault {
        Fault { at: self.at as nat, error: self.error@ }
    }
}

/// Whether the fault strikes within a transaction of `length` statements.
pub open spec fn strikes(fault: Option<Fault>, length: nat) -> bool {
    fault matches Some(f) && f.at < length
}

/// How the store answers the statement at `position`: with the error of the
/// fault if the fault strikes there, with a refusal if it cannot take the
/// statement, and with `None` if the statement goes through.
pub open spec fn answer(
    working: StoreView,
    statement: StatementView,
    position: nat,
    fault: Option<Fault>,
) -> Option<AppErrorView> {
    match fault {
        Some(f) if f.at == position => Some(f.error),
        _ => if working.accepts(statement) {
            None
        } else {
            Some(AppErrorView::Database(duplicate_identity()))
        },
    }
}

/// How a transaction ends in which every step of the plan is carried out:
/// the contents that the store holds for good, and the error that is passed
/// on, if there is one.  `committed` is what the store held when the
/// transaction began, `working` what the transaction has made of it so far.
pub open spec fn session(
    committed: StoreView,
    working: StoreView,
    plan: PlanView,
    fault: Option<Fault>,
) -> (StoreView, Option<AppErrorView>)
    decreases plan.statements.len() - plan.done, (if plan.failure is None {
        1nat
    } else {
        0nat
    }),
{
    match plan.step() {
        StepView::Commit => (working, None),
        StepView::Rollback(failure) => (committed, Some(failure)),
        StepView::Execute(statement) => {
            let failed = answer(working, statement, plan.done, fault);
            let next = if failed is None {
                working.apply(statement)
            } else {
                working
            };
            session(committed, next, plan.record(failed), fault)
        },
    }
}

/// How a transaction of `statements` on a store that holds `state` ends,
/// said at once.  A fault that strikes before any statement was refused
/// ends it with the error of the fault; otherwise a refused statement ends
/// it with the refusal; otherwise all statements take effect.  Whenever an
/// error is passed on, the store holds `state`.
pub open spec fn verdict(state: StoreView, statements: Seq<StatementView>, fault: Option<Fault>) -> (
    StoreView,
    Option<AppErrorView>,
) {
    if strikes(fault, statements.len()) && state.run(statements.take(fault->0.at as int))
        is Some {
        (state, Some(fault->0.error))
    } else {
        match state.run(statements) {
            Some(reached) => (reached, None),
            None => (state, Some(AppErrorView::Database(duplicate_identity()))),
        }
    }
}

proof fn lemma_session_from(
    state: StoreView,
    working: StoreView,
    statements: Seq<StatementView>,
    done: nat,
    fault: Option<Fault>,
)
    requires
        done <= statements.len(),
        state.run(statements.take(done as int)) == Some(working),
        fault matches Some(f) ==> done <= f.at,
    ensures
        session(state, working, PlanView { statements, done, failure: None }, fault) == verdict(
            state,
            statements,
            fault,
        ),
    decreases statements.len() - done,
{
    let plan = PlanView { statements, done, failure: None };
    if done == statements.len() {
        assert(statements.take(done as int) =~= statements);
    } else {
        let statement = statements[done as int];
        let failed = answer(working, statement, done, fault);
        assert(statements.take(done as int + 1).drop_last() =~= statements.take(done as int));
        assert(statements.take(done as int + 1).last() == statement);
        if failed is None {
            lemma_session_from(state, working.apply(statement), statements, done + 1, fault);
        } else {
            let stopped = plan.record(failed);
            assert(session(state, working, stopped, fault) == (state, failed));
            if !(fault matches Some(f) && f.at == done) {
                lemma_refusal_is_final(state, statements, done as int + 1);
                if strikes(fault, statements.len()) {
                    let upto = fault->0.at as int;
                    assert(statements.take(upto).take(done as int + 1) =~= statements.take(
                        done as int + 1,
                    ));
                    lemma_refusal_is_final(state, statements.take(upto), done as int + 1);
                }
            }
        }
    }
}

/// A transaction that carries out its plan step by step ends as `verdict`
/// says.
pub proof fn lemma_session_verdict(
    state: StoreView,
    statements: Seq<StatementView>,
    fault: Option<Fault>,
)
    ensures
        session(state, state, PlanView::fresh(statements), fault) == verdict(
            state,
            statements,
            fault,
        ),
{
    assert(statements.take(0) =~= Seq::<StatementView>::empty());
    lemma_session_from(state, state, statements, 0, fault);
}

/// Atomicity under a storage fault.  Let a transaction carry out the plan
/// for `statements` on a store that holds `state`.  If a fault strikes at
/// any statement of the plan, an error is passed on and the store holds
/// `state` afterwards, as if nothing had been attempted.  Without a fault
/// the store holds what the transaction of the statements makes of `state`.
/// In every case an error means that the store holds `state`, and no error
/// means that it holds the effect of all the statements.
pub proof fn lemma_session_is_atomic(
    state: StoreView,
    statements: Seq<StatementView>,
    fault: Option<Fault>,
)
    ensures
        strikes(fault, statements.len()) ==> session(
            state,
            state,
            PlanView::fresh(statements),
            fault,
        ).0 == state && session(state, state, PlanView::fresh(statements), fault).1 is Some,
        fault is None ==> session(state, state, PlanView::fresh(statements), fault).0
            == state.transact(statements),
        session(state, state, PlanView::fresh(statements), fault).1 is Some ==> session(
            state,
            state,
            PlanView::fresh(statements),
            fault,
        ).0 == state,
        session(state, state, PlanView::fresh(statements), fault).1 is None ==> state.run(
            statements,
        ) == Some(session(state, state, PlanView::fresh(statements), fault).0),
{
    lemma_session_verdict(state, statements, fault);
    if strikes(fault, statements.len()) && state.run(statements.take(fault->0.at as int))
        is None {
        lemma_refusal_is_final(state, statements, fault->0.at as int);
    }
}

/// The plan of one transaction, and how far it has come.
pub struct TransactionPlan {
    statements: Vec<Statement>,
    done: usize,
    failure: Option<AppError>,
}

impl View for TransactionPlan {
    type V = PlanView;

    closed spec fn view(&self) -> PlanView {
        PlanView {
            statements: statement_views(self.statements@),
            done: self.done as nat,
            failure: match self.failure {
                Some(failure) => Some(failure@),
                None => None,
            },
        }
    }
}

impl TransactionPlan {
    #[verifier::type_invariant]
    spec fn well_formed(self) -> bool {
        self.done <= self.statements@.len()
    }

    /// The plan of a transaction that runs `statements` in order.
    pub fn new(statements: Vec<Statement>) -> (plan: TransactionPlan)
        ensures
            plan@ == PlanView::fresh(statement_views(statements@)),
    {
        TransactionPlan { statements, done: 0, failure: None }
    }

    /// What to do next.
    pub fn step(&self) -> (step: Step)
        ensures
            step@ == self@.step(),
    {
        proof {
            use_type_invariant(self);
        }
        match &self.failure {
            Some(failure) => Step::Rollback(failure.clone()),
            None => if self.done < self.statements.len() {
                Step::Execute(self.statements[self.done].clone())
            } else {
                Step::Commit
            },
        }
    }

    /// Takes note of how the statement that `step` asked for went.
    pub fn record(&mut self, outcome: Result<(), AppError>)
        ensures
            final(self)@ == old(self)@.record(failure_of(outcome)),
            final(self)@.done <= final(self)@.statements.len(),
    {
        proof {
            use_type_invariant(&*self);
        }
        if self.failure.is_none() && self.done < self.statements.len() {
            match outcome {
                Ok(_) => {
                    self.done = self.done + 1;
                },
                Err(failure) => {
                    self.failure = Some(failure);
                },
            }
        }
    }
}

} // verus!
