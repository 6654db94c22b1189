//! `POST /api/task/`: creates a task in a list.
use vstd::prelude::*;
use crate::bearer::BearerToken;
use crate::db::{Action, Answer, Reply, Stmt, TxEnd, fail, failed, replied};
use crate::guard::{Check, Guard, Rule, Scope, Verdict, guard_awaits, guard_open, guard_start, guard_step, guard_verdict};

verus! {

/// The reply: the id of the new task.
#[derive(Debug)]
pub struct Success {
    pub id: i64,
}

/// The request: the list and the task's name, tag and priority.
#[derive(Debug)]
pub struct Body {
    pub id_list: i64,
    pub name: String,
    pub tag: i64,
    pub priority: i64,
}

/// Where the creation stands.
#[derive(Debug)]
pub enum State {
    Guard(Guard),
    /// The task row is being inserted.
    Inserting,
    /// The id of the inserted row has been asked for.
    AwaitId,
}

/// Any member of the list's project may add a task to it.
pub open spec fn check(body: Body) -> Option<Check> {
    Some(Check { scope: Scope::List(body.id_list), rule: Rule::Member })
}

/// The new task: in state 0, with an empty description, last edited by
/// its creator.
pub open spec fn new_task(body: Body, editor: String) -> Stmt {
    Stmt::InsertTask {
        name: body.name,
        tag: body.tag,
        priority: body.priority,
        editor,
        list: body.id_list,
    }
}

/// The first step: identify the caller.
pub open spec fn first(token: BearerToken) -> (Option<State>, Action) {
    (Some(State::Guard(guard_open(token).0)), Action::Fetch(guard_open(token).1))
}

/// Whether `answer` is the one the state waits for.
pub open spec fn awaits(state: State, answer: Answer) -> bool {
    match state {
        State::Guard(g) => guard_awaits(g, answer),
        State::Inserting => answer is Executed,
        State::AwaitId => answer is InsertId,
    }
}

/// The next state (none once the client is answered) and the next action.
pub open spec fn next(body: Body, state: State, answer: Answer) -> (Option<State>, Action) {
    match state {
        State::Guard(g) => match guard_verdict(check(body), g, answer) {
            Verdict::Ask(g2, f) => (Some(State::Guard(g2)), Action::Fetch(f)),
            Verdict::Refuse(f) => (None, Action::Respond { end: TxEnd::NoTx, result: Err(f) }),
            Verdict::Pass(email) => (
                Some(State::Inserting),
                Action::Execute { stmt: new_task(body, email), begin: false },
            ),
        },
        State::Inserting => match answer {
            Answer::Executed(Ok(_)) => (Some(State::AwaitId), Action::LastInsertId),
            _ => (None, failed(TxEnd::NoTx, 500)),
        },
        State::AwaitId => match answer {
            Answer::InsertId(id) => (None, replied(TxEnd::NoTx, Reply::TaskCreated(Success { id }))),
            _ => (None, failed(TxEnd::NoTx, 500)),
        },
    }
}

/// Starts the handling of the request.
pub fn begin(token: &BearerToken) -> (r: (Option<State>, Action))
    ensures
        r == first(*token),
{
    let (g, f) = guard_start(token);
    (Some(State::Guard(g)), Action::Fetch(f))
}

/// Moves the handling on with the database's answer to the last action.
pub fn route(body: &Body, state: State, answer: Answer) -> (r: (Option<State>, Action))
    requires
        awaits(state, answer),
    ensures
        r == next(*body, state, answer),
{
    match state {
        State::Guard(g) => match guard_step(
            Some(Check { scope: Scope::List(body.id_list), rule: Rule::Member }),
            g,
            answer,
        ) {
            Verdict::Ask(g2, f) => (Some(State::Guard(g2)), Action::Fetch(f)),
            Verdict::Refuse(f) => (None, Action::Respond { end: TxEnd::NoTx, result: Err(f) }),
            Verdict::Pass(email) => (
                Some(State::Inserting),
                Action::Execute {
                    stmt: Stmt::InsertTask {
                        name: body.name.clone(),
                        tag: body.tag,
                        priority: body.priority,
                        editor: email,
                        list: body.id_list,
                    },
                    begin: false,
                },
            ),
        },
        State::Inserting => match answer {
            Answer::Executed(Ok(_)) => (Some(State::AwaitId), Action::LastInsertId),
            _ => (None, fail(TxEnd::NoTx, 500)),
        },
        State::AwaitId => match answer {
            Answer::InsertId(id) => (
                None,
                Action::Respond { end: TxEnd::NoTx, result: Ok(Reply::TaskCreated(Success { id })) },
            ),
            _ => (None, fail(TxEnd::NoTx, 500)),
        },
    }
}

} // verus!
