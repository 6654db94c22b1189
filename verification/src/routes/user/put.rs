//! `PUT /api/user/`: edits the caller's account.
use vstd::prelude::*;
use vstd::string::*;
use crate::bearer::BearerToken;
use crate::db::{Action, Answer, Reply, Stmt, TxEnd, fail, failed, replied};
use crate::guard::{Check, Guard, Verdict, guard_awaits, guard_open, guard_start, guard_step, guard_verdict};

verus! {

/// The request: the new email and name; an empty field is left as it is.
#[derive(Debug)]
pub struct Body {
    pub email: String,
    pub name: String,
}

/// Where the edit stands.
#[derive(Debug)]
pub enum State {
    Guard(Guard),
    /// The account row is being updated.
    Updating,
}

/// The first step: identify the caller.
pub open spec fn first(token: BearerToken) -> (Option<State>, Action) {
    (Some(State::Guard(guard_open(token).0)), Action::Fetch(guard_open(token).1))
}

/// Whether `answer` is the one the state waits for.
pub open spec fn awaits(state: State, answer: Answer) -> bool {
    match state {
        State::Guard(g) => guard_awaits(g, answer),
        State::Updating => answer is Executed,
    }
}

/// Whether the body changes anything.
pub open spec fn changes_something(body: Body) -> bool {
    body.email@.len() > 0 || body.name@.len() > 0
}

/// The next state (none once the client is answered) and the next action.
/// The update is sent only when the body changes something.
pub open spec fn next(body: Body, state: State, answer: Answer) -> (Option<State>, Action) {
    match state {
        State::Guard(g) => match guard_verdict(None::<Check>, g, answer) {
            Verdict::Ask(g2, f) => (Some(State::Guard(g2)), Action::Fetch(f)),
            Verdict::Refuse(f) => (None, Action::Respond { end: TxEnd::NoTx, result: Err(f) }),
            Verdict::Pass(_) => if changes_something(body) {
                (
                    Some(State::Updating),
                    Action::Execute { stmt: Stmt::UpdateUser { email: body.email, name: body.name }, begin: false },
                )
            } else {
                (None, replied(TxEnd::NoTx, Reply::Unit))
            },
        },
        State::Updating => match answer {
            Answer::Executed(Ok(_)) => (None, replied(TxEnd::NoTx, Reply::Unit)),
            _ => (None, failed(TxEnd::NoTx, 500)),
        },
    }
}

/// Starts the handling of the request.
pub fn begin(token: &BearerToken) -> (r: (Option<State>, Action))
    ensures
        r == first(*token),
{
    let (g, f) = guard_start(token);
    (Some(State::Guard(g)), Action::Fetch(f))
}

/// Moves the handling on with the database's answer to the last action.
pub fn route(body: &Body, state: State, answer: Answer) -> (r: (Option<State>, Action))
    requires
        awaits(state, answer),
    ensures
        r == next(*body, state, answer),
{
    match state {
        State::Guard(g) => match guard_step(None, g, answer) {
            Verdict::Ask(g2, f) => (Some(State::Guard(g2)), Action::Fetch(f)),
            Verdict::Refuse(f) => (None, Action::Respond { end: TxEnd::NoTx, result: Err(f) }),
            Verdict::Pass(_) => {
                if !body.email.as_str().is_empty() || !body.name.as_str().is_empty() {
                    (
                        Some(State::Updating),
                        Action::Execute {
                            stmt: Stmt::UpdateUser { email: body.email.clone(), name: body.name.clone() },
                            begin: false,
                        },
                    )
                } else {
                    (None, Action::Respond { end: TxEnd::NoTx, result: Ok(Reply::Unit) })
                }
            },
        },
        State::Updating => match answer {
            Answer::Executed(Ok(_)) => (None, Action::Respond { end: TxEnd::NoTx, result: Ok(Reply::Unit) }),
            _ => (None, fail(TxEnd::NoTx, 500)),
        },
    }
}

} // verus!
