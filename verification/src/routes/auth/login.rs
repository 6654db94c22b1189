//! `POST /api/auth/login`: opens a new session for an account.
use vstd::prelude::*;
use crate::crypto::{bcrypt_verification, create_token, is_fresh_token, verify_password};
use crate::db::{Action, Answer, DbError, Fetch, Reply, Stmt, TxEnd, fail, failed, replied};

verus! {

/// The reply: the new session token.
#[derive(Debug)]
pub struct Success {
    pub token: String,
}

/// The request: the account and its password.
#[derive(Debug)]
pub struct Body {
    pub email: String,
    pub password: String,
}

/// Where the login stands.
#[derive(Debug)]
pub enum State {
    /// The stored password hash has been asked for.
    CheckingPassword,
    /// The new token is being stored for the account.
    SavingToken { token: String },
}

/// The first step: read the account's stored password hash.
pub open spec fn first(body: Body) -> (Option<State>, Action) {
    (Some(State::CheckingPassword), Action::Fetch(Fetch::PasswordOf { email: body.email }))
}

/// Whether `answer` is the one the state waits for.
pub open spec fn awaits(state: State, answer: Answer) -> bool {
    match state {
        State::CheckingPassword => answer is Text,
        State::SavingToken { .. } => answer is Executed,
    }
}

/// Whether `r` (the next state, none once the client is answered, and the
/// next action) is the step taken from `state` on `answer`. An unknown
/// account is answered with 404; a password the stored hash does not
/// accept, or a hash that cannot be read, with 401; otherwise a fresh
/// token is stored for the account.
pub open spec fn steps_to(body: Body, state: State, answer: Answer, r: (Option<State>, Action)) -> bool {
    match state {
        State::CheckingPassword => match answer {
            Answer::Text(Ok(hash)) => match bcrypt_verification(body.password@, hash@) {
                Some(true) => match r.0 {
                    Some(State::SavingToken { token }) => {
                        &&& is_fresh_token(body.email@, token@)
                        &&& r.1 == Action::Execute {
                            stmt: Stmt::SetToken { email: body.email, token },
                            begin: false,
                        }
                    },
                    _ => false,
                },
                _ => r == (None::<State>, failed(TxEnd::NoTx, 401)),
            },
            Answer::Text(Err(DbError::NoRows)) => r == (None::<State>, failed(TxEnd::NoTx, 404)),
            _ => r == (None::<State>, failed(TxEnd::NoTx, 500)),
        },
        State::SavingToken { token } => r == match answer {
            Answer::Executed(Ok(_)) => (None::<State>, replied(TxEnd::NoTx, Reply::Login(Success { token }))),
            _ => (None, failed(TxEnd::NoTx, 500)),
        },
    }
}

/// Starts the handling of the request.
pub fn begin(body: &Body) -> (r: (Option<State>, Action))
    ensures
        r == first(*body),
{
    (Some(State::CheckingPassword), Action::Fetch(Fetch::PasswordOf { email: body.email.clone() }))
}

/// Moves the handling on with the database's answer to the last action.
pub fn route(body: &Body, state: State, answer: Answer) -> (r: (Option<State>, Action))
    requires
        awaits(state, answer),
    ensures
        steps_to(*body, state, answer, r),
{
    match state {
        State::CheckingPassword => match answer {
            Answer::Text(Ok(hash)) => match verify_password(&body.password, &hash) {
                Some(true) => {
                    let token = create_token(&body.email);
                    (
                        Some(State::SavingToken { token: token.clone() }),
                        Action::Execute { stmt: Stmt::SetToken { email: body.email.clone(), token }, begin: false },
                    )
                },
                _ => (None, fail(TxEnd::NoTx, 401)),
            },
            Answer::Text(Err(DbError::NoRows)) => (None, fail(TxEnd::NoTx, 404)),
            _ => (None, fail(TxEnd::NoTx, 500)),
        },
        State::SavingToken { token } => match answer {
            Answer::Executed(Ok(_)) => (
                None,
                Action::Respond { end: TxEnd::NoTx, result: Ok(Reply::Login(Success { token })) },
            ),
            _ => (None, fail(TxEnd::NoTx, 500)),
        },
    }
}

} // verus!
