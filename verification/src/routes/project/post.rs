//! `POST /api/project/`: creates a project owned by the caller.
use vstd::prelude::*;
use crate::bearer::BearerToken;
use crate::db::{Action, Answer, Reply, Stmt, TxEnd, fail, failed, replied};
use crate::guard::{Check, Guard, Verdict, guard_awaits, guard_open, guard_start, guard_step, guard_verdict};

verus! {

/// The reply: the id of the new project.
#[derive(Debug)]
pub struct Success {
    pub id: i64,
}

/// The request: the name of the project.
#[derive(Debug)]
pub struct Body {
    pub name: String,
}

/// Where the creation stands.
#[derive(Debug)]
pub enum State {
    Guard(Guard),
    /// The transaction is open and the project row is being inserted.
    InsertingProject { email: String },
    /// The id of the new project has been asked for.
    AwaitId { email: String },
    /// The caller is being made the owner of project `id`.
    InsertingOwner { id: i64 },
}

/// The first step: identify the caller.
pub open spec fn first(token: BearerToken) -> (Option<State>, Action) {
    (Some(State::Guard(guard_open(token).0)), Action::Fetch(guard_open(token).1))
}

/// Whether `answer` is the one the state waits for.
pub open spec fn awaits(state: State, answer: Answer) -> bool {
    match state {
        State::Guard(g) => guard_awaits(g, answer),
        State::InsertingProject { .. } => answer is Executed,
        State::AwaitId { .. } => answer is InsertId,
        State::InsertingOwner { .. } => answer is Executed,
    }
}

/// The next state (none once the client is answered) and the next action.
pub open spec fn next(body: Body, state: State, answer: Answer) -> (Option<State>, Action) {
    match state {
        State::Guard(g) => match guard_verdict(None::<Check>, g, answer) {
            Verdict::Ask(g2, f) => (Some(State::Guard(g2)), Action::Fetch(f)),
            Verdict::Refuse(f) => (None, Action::Respond { end: TxEnd::NoTx, result: Err(f) }),
            Verdict::Pass(email) => (
                Some(State::InsertingProject { email }),
                Action::Execute { stmt: Stmt::InsertProject { name: body.name }, begin: true },
            ),
        },
        State::InsertingProject { email } => match answer {
            Answer::Executed(Ok(_)) => (Some(State::AwaitId { email }), Action::LastInsertId),
            _ => (None, failed(TxEnd::Rollback, 500)),
        },
        State::AwaitId { email } => match answer {
            Answer::InsertId(id) => (
                Some(State::InsertingOwner { id }),
                Action::Execute { stmt: Stmt::InsertOwner { project: id, email }, begin: false },
            ),
            _ => (None, failed(TxEnd::Rollback, 500)),
        },
        State::InsertingOwner { id } => match answer {
            Answer::Executed(Ok(_)) => (None, replied(TxEnd::Commit, Reply::ProjectCreated(Success { id }))),
            _ => (None, failed(TxEnd::Rollback, 500)),
        },
    }
}

/// Starts the handling of the request.
pub fn begin(token: &BearerToken) -> (r: (Option<State>, Action))
    ensures
        r == first(*token),
{
    let (g, f) = guard_start(token);
    (Some(State::Guard(g)), Action::Fetch(f))
}

/// Moves the handling on with the database's answer to the last action.
pub fn route(body: &Body, state: State, answer: Answer) -> (r: (Option<State>, Action))
    requires
        awaits(state, answer),
    ensures
        r == next(*body, state, answer),
{
    match state {
        State::Guard(g) => match guard_step(None, g, answer) {
            Verdict::Ask(g2, f) => (Some(State::Guard(g2)), Action::Fetch(f)),
            Verdict::Refuse(f) => (None, Action::Respond { end: TxEnd::NoTx, result: Err(f) }),
            Verdict::Pass(email) => (
                Some(State::InsertingProject { email }),
                Action::Execute { stmt: Stmt::InsertProject { name: body.name.clone() }, begin: true },
            ),
        },
        State::InsertingProject { email } => match answer {
            Answer::Executed(Ok(_)) => (Some(State::AwaitId { email }), Action::LastInsertId),
            _ => (None, fail(TxEnd::Rollback, 500)),
        },
        State::AwaitId { email } => match answer {
            Answer::InsertId(id) => (
                Some(State::InsertingOwner { id }),
                Action::Execute { stmt: Stmt::InsertOwner { project: id, email }, begin: false },
            ),
            _ => (None, fail(TxEnd::Rollback, 500)),
        },
        State::InsertingOwner { id } => match answer {
            Answer::Executed(Ok(_)) => (
                None,
                Action::Respond { end: TxEnd::Commit, result: Ok(Reply::ProjectCreated(Success { id })) },
            ),
            _ => (None, fail(TxEnd::Rollback, 500)),
        },
    }
}

} // verus!
