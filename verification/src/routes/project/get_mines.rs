//! `GET /api/project/mines`: the projects the caller belongs to.
use vstd::prelude::*;
use crate::bearer::BearerToken;
use crate::db::{Action, Answer, Fetch, Reply, TxEnd, fail, failed, replied};
use crate::guard::{Check, Guard, Verdict, guard_awaits, guard_open, guard_start, guard_step, guard_verdict};

verus! {

/// The reply: the caller's projects.
#[derive(Debug)]
pub struct Success {
    pub projects: Vec<Project>,
}

/// A project the caller belongs to.
#[derive(Debug)]
pub struct Project {
    pub id: i64,
    pub name: String,
}

/// Where the reading stands.
#[derive(Debug)]
pub enum State {
    Guard(Guard),
    /// The caller's projects have been asked for.
    Reading,
}

/// The first step: identify the caller.
pub open spec fn first(token: BearerToken) -> (Option<State>, Action) {
    (Some(State::Guard(guard_open(token).0)), Action::Fetch(guard_open(token).1))
}

/// Whether `answer` is the one the state waits for.
pub open spec fn awaits(state: State, answer: Answer) -> bool {
    match state {
        State::Guard(g) => guard_awaits(g, answer),
        State::Reading => answer is Projects,
    }
}

/// The next state (none once the client is answered) and the next action.
pub open spec fn next(state: State, answer: Answer) -> (Option<State>, Action) {
    match state {
        State::Guard(g) => match guard_verdict(None::<Check>, g, answer) {
            Verdict::Ask(g2, f) => (Some(State::Guard(g2)), Action::Fetch(f)),
            Verdict::Refuse(f) => (None, Action::Respond { end: TxEnd::NoTx, result: Err(f) }),
            Verdict::Pass(email) => (Some(State::Reading), Action::Fetch(Fetch::ProjectsOf { email })),
        },
        State::Reading => match answer {
            Answer::Projects(Ok(projects)) => (None, replied(TxEnd::NoTx, Reply::Projects(Success { projects }))),
            _ => (None, failed(TxEnd::NoTx, 500)),
        },
    }
}

/// Starts the handling of the request.
pub fn begin(token: &BearerToken) -> (r: (Option<State>, Action))
    ensures
        r == first(*token),
{
    let (g, f) = guard_start(token);
    (Some(State::Guard(g)), Action::Fetch(f))
}

/// Moves the handling on with the database's answer to the last action.
pub fn route(state: State, answer: Answer) -> (r: (Option<State>, Action))
    requires
        awaits(state, answer),
    ensures
        r == next(state, answer),
{
    match state {
        State::Guard(g) => match guard_step(None, g, answer) {
            Verdict::Ask(g2, f) => (Some(State::Guard(g2)), Action::Fetch(f)),
            Verdict::Refuse(f) => (None, Action::Respond { end: TxEnd::NoTx, result: Err(f) }),
            Verdict::Pass(email) => (Some(State::Reading), Action::Fetch(Fetch::ProjectsOf { email })),
        },
        State::Reading => match answer {
            Answer::Projects(Ok(projects)) => (
                None,
                Action::Respond { end: TxEnd::NoTx, result: Ok(Reply::Projects(Success { projects })) },
            ),
            _ => (None, fail(TxEnd::NoTx, 500)),
        },
    }
}

} // verus!
