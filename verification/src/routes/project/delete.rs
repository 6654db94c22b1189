//! `DELETE /api/project/<id_project>`: deletes a project the caller owns.
use vstd::prelude::*;
use crate::bearer::BearerToken;
use crate::db::{Action, Answer, Reply, Stmt, TxEnd, fail, failed, replied};
use crate::guard::{Check, Guard, Rule, Scope, Verdict, guard_awaits, guard_open, guard_start, guard_step, guard_verdict};

verus! {

/// Where the deletion stands.
#[derive(Debug)]
pub enum State {
    Guard(Guard),
    /// The transaction is open and the project row is being deleted.
    DeletingProject,
    /// The memberships of the project are being deleted.
    DeletingMembers,
}

/// Only the owner of the project may delete it.
pub open spec fn check(id_project: i64) -> Option<Check> {
    Some(Check { scope: Scope::Project(id_project), rule: Rule::Owner })
}

/// The first step: identify the caller.
pub open spec fn first(token: BearerToken) -> (Option<State>, Action) {
    (Some(State::Guard(guard_open(token).0)), Action::Fetch(guard_open(token).1))
}

/// Whether `answer` is the one the state waits for.
pub open spec fn awaits(state: State, answer: Answer) -> bool {
    match state {
        State::Guard(g) => guard_awaits(g, answer),
        _ => answer is Executed,
    }
}

/// The next state (none once the client is answered) and the next action.
pub open spec fn next(id_project: i64, state: State, answer: Answer) -> (Option<State>, Action) {
    match state {
        State::Guard(g) => match guard_verdict(check(id_project), g, answer) {
            Verdict::Ask(g2, f) => (Some(State::Guard(g2)), Action::Fetch(f)),
            Verdict::Refuse(f) => (None, Action::Respond { end: TxEnd::NoTx, result: Err(f) }),
            Verdict::Pass(_) => (
                Some(State::DeletingProject),
                Action::Execute { stmt: Stmt::DeleteProject { project: id_project }, begin: true },
            ),
        },
        State::DeletingProject => match answer {
            Answer::Executed(Ok(_)) => (
                Some(State::DeletingMembers),
                Action::Execute { stmt: Stmt::DeleteMembers { project: id_project }, begin: false },
            ),
            _ => (None, failed(TxEnd::Rollback, 500)),
        },
        State::DeletingMembers => match answer {
            Answer::Executed(Ok(_)) => (None, replied(TxEnd::Commit, Reply::Unit)),
            _ => (None, failed(TxEnd::Rollback, 500)),
        },
    }
}

/// Starts the handling of the request.
pub fn begin(token: &BearerToken) -> (r: (Option<State>, Action))
    ensures
        r == first(*token),
{
    let (g, f) = guard_start(token);
    (Some(State::Guard(g)), Action::Fetch(f))
}

/// Moves the handling on with the database's answer to the last action.
pub fn route(id_project: i64, state: State, answer: Answer) -> (r: (Option<State>, Action))
    requires
        awaits(state, answer),
    ensures
        r == next(id_project, state, answer),
{
    match state {
        State::Guard(g) => match guard_step(Some(Check { scope: Scope::Project(id_project), rule: Rule::Owner }), g, answer) {
            Verdict::Ask(g2, f) => (Some(State::Guard(g2)), Action::Fetch(f)),
            Verdict::Refuse(f) => (None, Action::Respond { end: TxEnd::NoTx, result: Err(f) }),
            Verdict::Pass(_) => (
                Some(State::DeletingProject),
                Action::Execute { stmt: Stmt::DeleteProject { project: id_project }, begin: true },
            ),
        },
        State::DeletingProject => match answer {
            Answer::Executed(Ok(_)) => (
                Some(State::DeletingMembers),
                Action::Execute { stmt: Stmt::DeleteMembers { project: id_project }, begin: false },
            ),
            _ => (None, fail(TxEnd::Rollback, 500)),
        },
        State::DeletingMembers => match answer {
            Answer::Executed(Ok(_)) => (None, Action::Respond { end: TxEnd::Commit, result: Ok(Reply::Unit) }),
            _ => (None, fail(TxEnd::Rollback, 500)),
        },
    }
}

} // verus!
