//! Who is calling, and whether they may act on what they ask for.
//!
//! Every route that carries a bearer token first looks up the account the
//! token belongs to; routes that act on a project, a list or a task then
//! look up the right that account holds there.
use vstd::prelude::*;
use vstd::string::*;
use crate::bearer::BearerToken;
use crate::db::{Action, Answer, DbError, Fetch};
use crate::http::{Failure, failure_of, send_error};

verus! {

/// The right a route asks of its caller.
#[derive(PartialEq, Eq, Structural, Clone, Copy, Debug)]
pub enum Rule {
    /// Any right in the project (the caller is a member).
    Member,
    /// The owner's right, stored as 1.
    Owner,
}

/// What a route acts on, and through which the caller's right is found.
#[derive(PartialEq, Eq, Structural, Clone, Copy, Debug)]
pub enum Scope {
    Project(i64),
    List(i64),
    Task(i64),
}

/// The right check of a route: where, and which right.
#[derive(PartialEq, Eq, Structural, Clone, Copy, Debug)]
pub struct Check {
    pub scope: Scope,
    pub rule: Rule,
}

/// Where the guard stands.
#[derive(Debug)]
pub enum Guard {
    /// The account of the token has been asked for.
    AwaitEmail,
    /// The account is known; its right has been asked for.
    AwaitRight { email: String },
}

/// What the guard decides on an answer.
#[derive(Debug)]
pub enum Verdict {
    /// Ask the database this, and stay in the guard.
    Ask(Guard, Fetch),
    /// Refuse the request.
    Refuse(Failure),
    /// Let the request through, on behalf of this account.
    Pass(String),
}

/// The right the caller holds, as the lookup reports it: a lookup that
/// finds no row means the caller holds no right, which is -1.
pub open spec fn right_outcome(found: Result<i32, DbError>) -> Result<i32, DbError> {
    match found {
        Err(DbError::NoRows) => Ok(-1i32),
        other => other,
    }
}

/// Classifies the lookup of a token's account: a token that matches no row
/// belongs to nobody, which is the empty email.
pub fn email_from_token(found: Result<String, DbError>) -> (r: Result<String, DbError>)
    ensures
        match found {
            Err(DbError::NoRows) => r matches Ok(e) && e@.len() == 0,
            _ => r == found,
        },
{
    match found {
        Err(DbError::NoRows) => {
            let empty = "".to_owned();
            proof {
                reveal_strlit("");
            }
            Ok(empty)
        },
        other => other,
    }
}

/// Classifies the lookup of a right: no row means no right (-1).
pub fn right_from_answer(found: Result<i32, DbError>) -> (r: Result<i32, DbError>)
    ensures
        r == right_outcome(found),
{
    match found {
        Err(DbError::NoRows) => Ok(-1),
        other => other,
    }
}

/// Whether a right satisfies a rule.
pub open spec fn allows(rule: Rule, right: i32) -> bool {
    match rule {
        Rule::Member => right != -1,
        Rule::Owner => right == 1,
    }
}

/// The lookup of `email`'s right in a scope.
pub open spec fn right_fetch(scope: Scope, email: String) -> Fetch {
    match scope {
        Scope::Project(p) => Fetch::RightFromProject { email, project: p },
        Scope::List(l) => Fetch::RightFromList { email, list: l },
        Scope::Task(t) => Fetch::RightFromTask { email, task: t },
    }
}

/// The first step of the guard: look up the token's account.
pub open spec fn guard_open(token: BearerToken) -> (Guard, Fetch) {
    (Guard::AwaitEmail, Fetch::EmailOfToken { token: token.value })
}

/// Whether `answer` is the one the guard waits for.
pub open spec fn guard_awaits(guard: Guard, answer: Answer) -> bool {
    match guard {
        Guard::AwaitEmail => answer is Text,
        Guard::AwaitRight { .. } => answer is Right,
    }
}

/// What the guard decides on an answer.
pub open spec fn guard_verdict(check: Option<Check>, guard: Guard, answer: Answer) -> Verdict {
    match (guard, answer) {
        (Guard::AwaitEmail, Answer::Text(found)) => match found {
            Err(DbError::NoRows) => Verdict::Refuse(failure_of(401)),
            Err(_) => Verdict::Refuse(failure_of(500)),
            Ok(email) => if email@.len() == 0 {
                Verdict::Refuse(failure_of(401))
            } else {
                match check {
                    None => Verdict::Pass(email),
                    Some(c) => Verdict::Ask(
                        Guard::AwaitRight { email },
                        right_fetch(c.scope, email),
                    ),
                }
            },
        },
        (Guard::AwaitRight { email }, Answer::Right(found)) => match right_outcome(found) {
            Err(_) => Verdict::Refuse(failure_of(500)),
            Ok(right) => if check is Some && allows(check->0.rule, right) {
                Verdict::Pass(email)
            } else {
                Verdict::Refuse(failure_of(403))
            },
        },
        _ => Verdict::Refuse(failure_of(500)),
    }
}

/// Starts the guard for a request carrying `token`.
pub fn guard_start(token: &BearerToken) -> (r: (Guard, Fetch))
    ensures
        r == guard_open(*token),
{
    (Guard::AwaitEmail, Fetch::EmailOfToken { token: token.value.clone() })
}

/// Decides on an answer while the guard is open.
pub fn guard_step(check: Option<Check>, guard: Guard, answer: Answer) -> (v: Verdict)
    requires
        guard_awaits(guard, answer),
    ensures
        v == guard_verdict(check, guard, answer),
{
    match guard {
        Guard::AwaitEmail => {
            let found = match answer {
                Answer::Text(found) => found,
                _ => { return Verdict::Refuse(send_error(500)); },
            };
            match email_from_token(found) {
                Err(_) => Verdict::Refuse(send_error(500)),
                Ok(email) => {
                    if email.as_str().is_empty() {
                        Verdict::Refuse(send_error(401))
                    } else {
                        match check {
                            None => Verdict::Pass(email),
                            Some(c) => {
                                let fetch = match c.scope {
                                    Scope::Project(p) => Fetch::RightFromProject { email: email.clone(), project: p },
                                    Scope::List(l) => Fetch::RightFromList { email: email.clone(), list: l },
                                    Scope::Task(t) => Fetch::RightFromTask { email: email.clone(), task: t },
                                };
                                Verdict::Ask(Guard::AwaitRight { email }, fetch)
                            },
                        }
                    }
                },
            }
        },
        Guard::AwaitRight { email } => {
            let found = match answer {
                Answer::Right(found) => found,
                _ => { return Verdict::Refuse(send_error(500)); },
            };
            match right_from_answer(found) {
                Err(_) => Verdict::Refuse(send_error(500)),
                Ok(right) => {
                    let allowed = match check {
                        Some(c) => match c.rule {
                            Rule::Member => right != -1,
                            Rule::Owner => right == 1,
                        },
                        None => false,
                    };
                    if allowed {
                        Verdict::Pass(email)
                    } else {
                        Verdict::Refuse(send_error(403))
                    }
                },
            }
        },
    }
}

} // verus!
