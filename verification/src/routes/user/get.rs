//! `GET /api/user/<email>`: reads an account.
use vstd::prelude::*;
use crate::bearer::BearerToken;
use crate::db::{Action, Answer, DbError, Fetch, Reply, TxEnd, fail, failed, replied};
use crate::guard::{Check, Guard, Verdict, guard_awaits, guard_open, guard_start, guard_step, guard_verdict};

verus! {

/// The reply: the account's email and name.
#[derive(Debug)]
pub struct Success {
    pub email: String,
    pub name: String,
}

/// Where the reading stands.
#[derive(Debug)]
pub enum State {
    Guard(Guard),
    /// The account has been asked for.
    Reading,
}

/// The first step: identify the caller.
pub open spec fn first(token: BearerToken) -> (Option<State>, Action) {
    (Some(State::Guard(guard_open(token).0)), Action::Fetch(guard_open(token).1))
}

/// Whether `answer` is the one the state waits for.
pub open spec fn awaits(state: State, answer: Answer) -> bool {
    match state {
        State::Guard(g) => guard_awaits(g, answer),
        State::Reading => answer is User,
    }
}

/// The next state (none once the client is answered) and the next action;
/// `email` is the account asked for. Any caller with a session may read any
/// account; an unknown account is answered with 404.
pub open spec fn next(email: String, state: State, answer: Answer) -> (Option<State>, Action) {
    match state {
        State::Guard(g) => match guard_verdict(None::<Check>, g, answer) {
            Verdict::Ask(g2, f) => (Some(State::Guard(g2)), Action::Fetch(f)),
            Verdict::Refuse(f) => (None, Action::Respond { end: TxEnd::NoTx, result: Err(f) }),
            Verdict::Pass(_) => (Some(State::Reading), Action::Fetch(Fetch::UserByEmail { email })),
        },
        State::Reading => match answer {
            Answer::User(Ok(user)) => (None, replied(TxEnd::NoTx, Reply::User(user))),
            Answer::User(Err(DbError::NoRows)) => (None, failed(TxEnd::NoTx, 404)),
            _ => (None, failed(TxEnd::NoTx, 500)),
        },
    }
}

/// Starts the handling of the request.
pub fn begin(token: &BearerToken) -> (r: (Option<State>, Action))
    ensures
        r == first(*token),
{
    let (g, f) = guard_start(token);
    (Some(State::Guard(g)), Action::Fetch(f))
}

/// Moves the handling on with the database's answer to the last action.
pub fn route(email: &String, state: State, answer: Answer) -> (r: (Option<State>, Action))
    requires
        awaits(state, answer),
    ensures
        r == next(*email, state, answer),
{
    match state {
        State::Guard(g) => match guard_step(None, g, answer) {
            Verdict::Ask(g2, f) => (Some(State::Guard(g2)), Action::Fetch(f)),
            Verdict::Refuse(f) => (None, Action::Respond { end: TxEnd::NoTx, result: Err(f) }),
            Verdict::Pass(_) => (Some(State::Reading), Action::Fetch(Fetch::UserByEmail { email: email.clone() })),
        },
        State::Reading => match answer {
            Answer::User(Ok(user)) => (None, Action::Respond { end: TxEnd::NoTx, result: Ok(Reply::User(user)) }),
            Answer::User(Err(DbError::NoRows)) => (None, fail(TxEnd::NoTx, 404)),
            _ => (None, fail(TxEnd::NoTx, 500)),
        },
    }
}

} // verus!
