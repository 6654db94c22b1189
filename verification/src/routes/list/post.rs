//! `POST /api/list/`: creates a list in a project.
use vstd::prelude::*;
use crate::bearer::BearerToken;
use crate::db::{Action, Answer, Reply, Stmt, TxEnd, fail, failed, replied};
use crate::guard::{Check, Guard, Rule, Scope, Verdict, guard_awaits, guard_open, guard_start, guard_step, guard_verdict};

verus! {

/// The reply: the id of the new list.
#[derive(Debug)]
pub struct Success {
    pub id: i64,
}

/// The request: the project and the name of the list.
#[derive(Debug)]
pub struct Body {
    pub id_project: i64,
    pub name: String,
}

/// Where the creation stands.
#[derive(Debug)]
pub enum State {
    Guard(Guard),
    /// The list row is being inserted.
    Inserting,
    /// The id of the inserted row has been asked for.
    AwaitId,
}

/// Any member of the project may add a list to it.
pub open spec fn check(body: Body) -> Option<Check> {
    Some(Check { scope: Scope::Project(body.id_project), rule: Rule::Member })
}

/// The first step: identify the caller.
pub open spec fn first(token: BearerToken) -> (Option<State>, Action) {
    (Some(State::Guard(guard_open(token).0)), Action::Fetch(guard_open(token).1))
}

/// Whether `answer` is the one the state waits for.
pub open spec fn awaits(state: State, answer: Answer) -> bool {
    match state {
        State::Guard(g) => guard_awaits(g, answer),
        State::Inserting => answer is Executed,
        State::AwaitId => answer is InsertId,
    }
}

/// The next state (none once the client is answered) and the next action.
pub open spec fn next(body: Body, state: State, answer: Answer) -> (Option<State>, Action) {
    match state {
        State::Guard(g) => match guard_verdict(check(body), g, answer) {
            Verdict::Ask(g2, f) => (Some(State::Guard(g2)), Action::Fetch(f)),
            Verdict::Refuse(f) => (None, Action::Respond { end: TxEnd::NoTx, result: Err(f) }),
            Verdict::Pass(_) => (
                Some(State::Inserting),
                Action::Execute {
                    stmt: Stmt::InsertList { name: body.name, project: body.id_project },
                    begin: false,
                },
            ),
        },
        State::Inserting => match answer {
            Answer::Executed(Ok(_)) => (Some(State::AwaitId), Action::LastInsertId),
            _ => (None, failed(TxEnd::NoTx, 500)),
        },
        State::AwaitId => match answer {
            Answer::InsertId(id) => (None, replied(TxEnd::NoTx, Reply::ListCreated(Success { id }))),
            _ => (None, failed(TxEnd::NoTx, 500)),
        },
    }
}

/// Starts the handling of the request.
pub fn begin(token: &BearerToken) -> (r: (Option<State>, Action))
    ensures
        r == first(*token),
{
    let (g, f) = guard_start(token);
    (Some(State::Guard(g)), Action::Fetch(f))
}

/// Moves the handling on with the database's answer to the last action.
pub fn route(body: &Body, state: State, answer: Answer) -> (r: (Option<State>, Action))
    requires
        awaits(state, answer),
    ensures
        r == next(*body, state, answer),
{
    match state {
        State::Guard(g) => match guard_step(
            Some(Check { scope: Scope::Project(body.id_project), rule: Rule::Member }),
            g,
            answer,
        ) {
            Verdict::Ask(g2, f) => (Some(State::Guard(g2)), Action::Fetch(f)),
            Verdict::Refuse(f) => (None, Action::Respond { end: TxEnd::NoTx, result: Err(f) }),
            Verdict::Pass(_) => (
                Some(State::Inserting),
                Action::Execute {
                    stmt: Stmt::InsertList { name: body.name.clone(), project: body.id_project },
                    begin: false,
                },
            ),
        },
        State::Inserting => match answer {
            Answer::Executed(Ok(_)) => (Some(State::AwaitId), Action::LastInsertId),
            _ => (None, fail(TxEnd::NoTx, 500)),
        },
        State::AwaitId => match answer {
            Answer::InsertId(id) => (
                None,
                Action::Respond { end: TxEnd::NoTx, result: Ok(Reply::ListCreated(Success { id })) },
            ),
            _ => (None, fail(TxEnd::NoTx, 500)),
        },
    }
}

} // verus!
