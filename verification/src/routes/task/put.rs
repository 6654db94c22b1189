//! `PUT /api/task/<id>`: edits a task.
use vstd::prelude::*;
use crate::bearer::BearerToken;
use crate::db::{Action, Answer, Reply, Stmt, TxEnd, fail, failed, replied};
use crate::guard::{Check, Guard, Rule, Scope, Verdict, guard_awaits, guard_open, guard_start, guard_step, guard_verdict};

verus! {

/// The request: the fields to change; an absent field, or a tag or
/// priority of -1, is left as it is.
#[derive(Debug)]
pub struct Body {
    pub name: Option<String>,
    pub descr: Option<String>,
    pub tag: Option<i64>,
    pub priority: Option<i64>,
}

/// Where the edit stands.
#[derive(Debug)]
pub enum State {
    Guard(Guard),
    /// The task row is being updated.
    Updating,
}

/// Only an owner of the task's project may edit it.
pub open spec fn check(id: i64) -> Option<Check> {
    Some(Check { scope: Scope::Task(id), rule: Rule::Owner })
}

/// The first step: identify the caller.
pub open spec fn first(token: BearerToken) -> (Option<State>, Action) {
    (Some(State::Guard(guard_open(token).0)), Action::Fetch(guard_open(token).1))
}

/// Whether `answer` is the one the state waits for.
pub open spec fn awaits(state: State, answer: Answer) -> bool {
    match state {
        State::Guard(g) => guard_awaits(g, answer),
        State::Updating => answer is Executed,
    }
}

/// The edit of task `id` made by `editor`.
pub open spec fn edit(id: i64, body: Body, editor: String) -> Stmt {
    Stmt::UpdateTask {
        task: id,
        new_name: body.name,
        new_descr: body.descr,
        new_tag: body.tag,
        new_priority: body.priority,
        editor,
    }
}

/// The next state (none once the client is answered) and the next action.
/// The update is always sent: it at least records the caller as the last
/// editor.
pub open spec fn next(id: i64, body: Body, state: State, answer: Answer) -> (Option<State>, Action) {
    match state {
        State::Guard(g) => match guard_verdict(check(id), g, answer) {
            Verdict::Ask(g2, f) => (Some(State::Guard(g2)), Action::Fetch(f)),
            Verdict::Refuse(f) => (None, Action::Respond { end: TxEnd::NoTx, result: Err(f) }),
            Verdict::Pass(email) => (
                Some(State::Updating),
                Action::Execute { stmt: edit(id, body, email), begin: false },
            ),
        },
        State::Updating => match answer {
            Answer::Executed(Ok(_)) => (None, replied(TxEnd::NoTx, Reply::Unit)),
            _ => (None, failed(TxEnd::NoTx, 500)),
        },
    }
}

fn copy_text(o: &Option<String>) -> (r: Option<String>)
    ensures
        r == *o,
{
    match o {
        Some(s) => Some(s.clone()),
        None => None,
    }
}

/// Starts the handling of the request.
pub fn begin(token: &BearerToken) -> (r: (Option<State>, Action))
    ensures
        r == first(*token),
{
    let (g, f) = guard_start(token);
    (Some(State::Guard(g)), Action::Fetch(f))
}

/// Moves the handling on with the database's answer to the last action;
/// `id` is the task.
pub fn route(id: i64, body: &Body, state: State, answer: Answer) -> (r: (Option<State>, Action))
    requires
        awaits(state, answer),
    ensures
        r == next(id, *body, state, answer),
{
    match state {
        State::Guard(g) => match guard_step(Some(Check { scope: Scope::Task(id), rule: Rule::Owner }), g, answer) {
            Verdict::Ask(g2, f) => (Some(State::Guard(g2)), Action::Fetch(f)),
            Verdict::Refuse(f) => (None, Action::Respond { end: TxEnd::NoTx, result: Err(f) }),
            Verdict::Pass(email) => {
                let stmt = Stmt::UpdateTask {
                    task: id,
                    new_name: copy_text(&body.name),
                    new_descr: copy_text(&body.descr),
                    new_tag: body.tag,
                    new_priority: body.priority,
                    editor: email,
                };
                (Some(State::Updating), Action::Execute { stmt, begin: false })
            },
        },
        State::Updating => match answer {
            Answer::Executed(Ok(_)) => (None, Action::Respond { end: TxEnd::NoTx, result: Ok(Reply::Unit) }),
            _ => (None, fail(TxEnd::NoTx, 500)),
        },
    }
}

} // verus!
