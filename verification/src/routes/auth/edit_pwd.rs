//! `PUT /api/auth/pwd`: changes the caller's password and session token.
use vstd::prelude::*;
use crate::bearer::BearerToken;
use crate::crypto::{create_token, is_fresh_token};
use crate::db::{Action, Answer, DbError, Reply, Stmt, TxEnd, fail, failed, replied};
use crate::guard::{Check, Guard, Verdict, guard_awaits, guard_open, guard_start, guard_step, guard_verdict};

verus! {

/// The reply: the caller's new session token.
#[derive(Debug)]
pub struct Success {
    pub token: String,
}

/// The request: the new password, stored as it is sent.
#[derive(Debug)]
pub struct Body {
    pub password: String,
}

/// Where the change stands.
#[derive(Debug)]
pub enum State {
    Guard(Guard),
    /// The transaction is open and the password is being written; `token`
    /// is the new session token.
    SettingPassword { email: String, token: String },
    /// The new session token is being written.
    SettingToken { token: String },
}

/// The first step: identify the caller.
pub open spec fn first(token: BearerToken) -> (Option<State>, Action) {
    (Some(State::Guard(guard_open(token).0)), Action::Fetch(guard_open(token).1))
}

/// Whether `answer` is the one the state waits for, and one the route
/// handles: a failed lookup of the caller's account, other than finding no
/// account, stops the route outright.
pub open spec fn awaits(state: State, answer: Answer) -> bool {
    match state {
        State::Guard(g) => {
            &&& guard_awaits(g, answer)
            &&& g is AwaitEmail ==> !(answer matches Answer::Text(Err(e)) && e != DbError::NoRows)
        },
        _ => answer is Executed,
    }
}

/// Whether `r` (the next state, none once the client is answered, and the
/// next action) is the step taken from `state` on `answer`.
pub open spec fn steps_to(body: Body, state: State, answer: Answer, r: (Option<State>, Action)) -> bool {
    match state {
        State::Guard(g) => match guard_verdict(None::<Check>, g, answer) {
            Verdict::Ask(g2, f) => r == (Some(State::Guard(g2)), Action::Fetch(f)),
            Verdict::Refuse(f) => r == (None::<State>, Action::Respond { end: TxEnd::NoTx, result: Err(f) }),
            Verdict::Pass(email) => match r.0 {
                Some(State::SettingPassword { email: e, token }) => {
                    &&& e == email
                    &&& is_fresh_token(email@, token@)
                    &&& r.1 == Action::Execute {
                        stmt: Stmt::SetPassword { email, password: body.password },
                        begin: true,
                    }
                },
                _ => false,
            },
        },
        State::SettingPassword { email, token } => r == match answer {
            Answer::Executed(Ok(_)) => (
                Some(State::SettingToken { token }),
                Action::Execute { stmt: Stmt::SetToken { email, token }, begin: false },
            ),
            _ => (None, failed(TxEnd::Rollback, 500)),
        },
        State::SettingToken { token } => r == match answer {
            Answer::Executed(Ok(_)) => (None::<State>, replied(TxEnd::Commit, Reply::EditPwd(Success { token }))),
            _ => (None, failed(TxEnd::Rollback, 500)),
        },
    }
}

/// Starts the handling of the request.
pub fn begin(token: &BearerToken) -> (r: (Option<State>, Action))
    ensures
        r == first(*token),
{
    let (g, f) = guard_start(token);
    (Some(State::Guard(g)), Action::Fetch(f))
}

/// Moves the handling on with the database's answer to the last action.
pub fn route(body: &Body, state: State, answer: Answer) -> (r: (Option<State>, Action))
    requires
        awaits(state, answer),
    ensures
        steps_to(*body, state, answer, r),
{
    match state {
        State::Guard(g) => match guard_step(None, g, answer) {
            Verdict::Ask(g2, f) => (Some(State::Guard(g2)), Action::Fetch(f)),
            Verdict::Refuse(f) => (None, Action::Respond { end: TxEnd::NoTx, result: Err(f) }),
            Verdict::Pass(email) => {
                let token = create_token(&email);
                (
                    Some(State::SettingPassword { email: email.clone(), token }),
                    Action::Execute {
                        stmt: Stmt::SetPassword { email, password: body.password.clone() },
                        begin: true,
                    },
                )
            },
        },
        State::SettingPassword { email, token } => match answer {
            Answer::Executed(Ok(_)) => (
                Some(State::SettingToken { token: token.clone() }),
                Action::Execute { stmt: Stmt::SetToken { email, token }, begin: false },
            ),
            _ => (None, fail(TxEnd::Rollback, 500)),
        },
        State::SettingToken { token } => match answer {
            Answer::Executed(Ok(_)) => (
                None,
                Action::Respond { end: TxEnd::Commit, result: Ok(Reply::EditPwd(Success { token })) },
            ),
            _ => (None, fail(TxEnd::Rollback, 500)),
        },
    }
}

} // verus!
