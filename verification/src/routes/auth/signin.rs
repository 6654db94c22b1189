//! `POST /api/auth/signin`: creates an account and opens its session.
use vstd::prelude::*;
use crate::crypto::{bcrypt_verification, create_token, hash_password, is_fresh_token};
use crate::db::{Action, Answer, DbError, Reply, Stmt, TxEnd, fail, failed, replied};

verus! {

/// The reply: the session token of the new account.
#[derive(Debug)]
pub struct Success {
    pub token: String,
}

/// The request: the account to create.
#[derive(Debug)]
pub struct Body {
    pub email: String,
    pub name: String,
    pub password: String,
}

/// Where the creation stands.
#[derive(Debug)]
pub enum State {
    /// The transaction is open and the account row is being inserted;
    /// `token` is the session token drawn for it.
    InsertingUser { token: String },
    /// The session row is being inserted.
    InsertingConnexion { token: String },
}

/// Whether `r` is a first step of a sign-in: either hashing the password
/// failed and the request is answered with 500, or the account row is
/// inserted, in a new transaction, with a hash that the password verifies
/// against, and a fresh token is kept for the session.
pub open spec fn starts(body: Body, r: (Option<State>, Action)) -> bool {
    match r.1 {
        Action::Execute { stmt: Stmt::InsertUser { email, name, password }, begin } => {
            &&& begin
            &&& email == body.email
            &&& name == body.name
            &&& bcrypt_verification(body.password@, password@) == Some(true)
            &&& r.0 matches Some(State::InsertingUser { token }) && is_fresh_token(body.email@, token@)
        },
        _ => r == (None::<State>, failed(TxEnd::NoTx, 500)),
    }
}

/// Whether `answer` is the one the state waits for.
pub open spec fn awaits(state: State, answer: Answer) -> bool {
    answer is Executed
}

/// The next state (none once the client is answered) and the next action.
/// An account whose email is taken breaks a constraint, which is answered
/// with 409.
pub open spec fn next(body: Body, state: State, answer: Answer) -> (Option<State>, Action) {
    match state {
        State::InsertingUser { token } => match answer {
            Answer::Executed(Ok(_)) => (
                Some(State::InsertingConnexion { token }),
                Action::Execute { stmt: Stmt::InsertConnexion { token, email: body.email }, begin: false },
            ),
            Answer::Executed(Err(DbError::ConstraintViolation)) => (None, failed(TxEnd::Rollback, 409)),
            _ => (None, failed(TxEnd::Rollback, 500)),
        },
        State::InsertingConnexion { token } => match answer {
            Answer::Executed(Ok(_)) => (None, replied(TxEnd::Commit, Reply::Signin(Success { token }))),
            _ => (None, failed(TxEnd::Rollback, 500)),
        },
    }
}

/// Starts the handling of the request: hashes the password, draws the
/// session token and inserts the account.
pub fn begin(body: &Body) -> (r: (Option<State>, Action))
    ensures
        starts(*body, r),
{
    match hash_password(&body.password) {
        None => (None, fail(TxEnd::NoTx, 500)),
        Some(hashed) => {
            let token = create_token(&body.email);
            (
                Some(State::InsertingUser { token }),
                Action::Execute {
                    stmt: Stmt::InsertUser { email: body.email.clone(), name: body.name.clone(), password: hashed },
                    begin: true,
                },
            )
        },
    }
}

/// Moves the handling on with the database's answer to the last action.
pub fn route(body: &Body, state: State, answer: Answer) -> (r: (Option<State>, Action))
    requires
        awaits(state, answer),
    ensures
        r == next(*body, state, answer),
{
    match state {
        State::InsertingUser { token } => match answer {
            Answer::Executed(Ok(_)) => (
                Some(State::InsertingConnexion { token: token.clone() }),
                Action::Execute { stmt: Stmt::InsertConnexion { token, email: body.email.clone() }, begin: false },
            ),
            Answer::Executed(Err(DbError::ConstraintViolation)) => (None, fail(TxEnd::Rollback, 409)),
            _ => (None, fail(TxEnd::Rollback, 500)),
        },
        State::InsertingConnexion { token } => match answer {
            Answer::Executed(Ok(_)) => (
                None,
                Action::Respond { end: TxEnd::Commit, result: Ok(Reply::Signin(Success { token })) },
            ),
            _ => (None, fail(TxEnd::Rollback, 500)),
        },
    }
}

} // verus!
