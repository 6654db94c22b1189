//! `PUT /api/task/state/<id>`: moves a task to its next state.
use vstd::prelude::*;
use crate::bearer::BearerToken;
use crate::db::{Action, Answer, Reply, Stmt, TxEnd, fail, failed, replied};
use crate::guard::{Check, Guard, Rule, Scope, Verdict, guard_awaits, guard_open, guard_start, guard_step, guard_verdict};

verus! {

/// Where the change stands.
#[derive(Debug)]
pub enum State {
    Guard(Guard),
    /// The task row is being updated.
    Cycling,
}

/// Only an owner of the task's project may move it.
pub open spec fn check(id: i64) -> Option<Check> {
    Some(Check { scope: Scope::Task(id), rule: Rule::Owner })
}

/// The first step: identify the caller.
pub open spec fn first(token: BearerToken) -> (Option<State>, Action) {
    (Some(State::Guard(guard_open(token).0)), Action::Fetch(guard_open(token).1))
}

/// Whether `answer` is the one the state waits for.
pub open spec fn awaits(state: State, answer: Answer) -> bool {
    match state {
        State::Guard(g) => guard_awaits(g, answer),
        State::Cycling => answer is Executed,
    }
}

/// The next state (none once the client is answered) and the next action.
pub open spec fn next(id: i64, state: State, answer: Answer) -> (Option<State>, Action) {
    match state {
        State::Guard(g) => match guard_verdict(check(id), g, answer) {
            Verdict::Ask(g2, f) => (Some(State::Guard(g2)), Action::Fetch(f)),
            Verdict::Refuse(f) => (None, Action::Respond { end: TxEnd::NoTx, result: Err(f) }),
            Verdict::Pass(_) => (
                Some(State::Cycling),
                Action::Execute { stmt: Stmt::CycleTaskState { task: id }, begin: false },
            ),
        },
        State::Cycling => match answer {
            Answer::Executed(Ok(_)) => (None, replied(TxEnd::NoTx, Reply::Unit)),
            _ => (None, failed(TxEnd::NoTx, 500)),
        },
    }
}

/// Starts the handling of the request.
pub fn begin(token: &BearerToken) -> (r: (Option<State>, Action))
    ensures
        r == first(*token),
{
    let (g, f) = guard_start(token);
    (Some(State::Guard(g)), Action::Fetch(f))
}

/// Moves the handling on with the database's answer to the last action;
/// `id` is the task.
pub fn route(id: i64, state: State, answer: Answer) -> (r: (Option<State>, Action))
    requires
        awaits(state, answer),
    ensures
        r == next(id, state, answer),
{
    match state {
        State::Guard(g) => match guard_step(Some(Check { scope: Scope::Task(id), rule: Rule::Owner }), g, answer) {
            Verdict::Ask(g2, f) => (Some(State::Guard(g2)), Action::Fetch(f)),
            Verdict::Refuse(f) => (None, Action::Respond { end: TxEnd::NoTx, result: Err(f) }),
            Verdict::Pass(_) => (
                Some(State::Cycling),
                Action::Execute { stmt: Stmt::CycleTaskState { task: id }, begin: false },
            ),
        },
        State::Cycling => match answer {
            Answer::Executed(Ok(_)) => (None, Action::Respond { end: TxEnd::NoTx, result: Ok(Reply::Unit) }),
            _ => (None, fail(TxEnd::NoTx, 500)),
        },
    }
}

} // verus!
