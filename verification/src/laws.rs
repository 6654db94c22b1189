//! What holds of every request the service handles.
use vstd::prelude::*;
use crate::bearer::BearerToken;
use crate::db::{Action, Answer, DbError, Fetch, TxEnd, failed};
use crate::guard::{Guard, allows, right_fetch, right_outcome};
use crate::handler::{Request, State, awaits, check_of, guard_of, in_tx, is_guarded, starts, steps_to};
use crate::http::failure_of;
use crate::crypto::bcrypt_verification;
use crate::db::{Reply, Stmt, answers, replied};
use crate::routes::auth::{signin, login, edit_pwd};
use crate::routes::user::delete as user_delete;
use crate::routes::project::post as project_post;
use crate::routes::project::get as project_get;
use crate::routes::project::delete as project_delete;
use crate::routes::list::post as list_post;
use crate::routes::task::post as task_post;

verus! {

/// A request whose bearer token belongs to no account is answered with
/// 401, without any write and with no transaction open.
pub proof fn law_unknown_token_is_unauthorized(req: Request, s: State, a: Answer, r: (Option<State>, Action))
    requires
        awaits(req, s, a),
        steps_to(req, s, a, r),
        guard_of(s) == Some(Guard::AwaitEmail),
        a == Answer::Text(Err(DbError::NoRows)) || (a matches Answer::Text(Ok(e)) && e@.len() == 0),
    ensures
        r.0 is None,
        r.1 == failed(TxEnd::NoTx, 401),
        failure_of(401).status.code == 401,
{
}

/// A caller who lacks the right a route asks for in a project, list or
/// task is answered with 403, without any write and with no transaction
/// open.
pub proof fn law_missing_right_is_forbidden(
    req: Request,
    s: State,
    a: Answer,
    r: (Option<State>, Action),
    email: String,
    found: Result<i32, DbError>,
)
    requires
        awaits(req, s, a),
        steps_to(req, s, a, r),
        guard_of(s) == Some(Guard::AwaitRight { email }),
        a == Answer::Right(found),
        right_outcome(found) is Ok,
        !(check_of(req) is Some && allows(check_of(req)->0.rule, right_outcome(found)->Ok_0)),
    ensures
        r.0 is None,
        r.1 == failed(TxEnd::NoTx, 403),
        failure_of(403).status.code == 403,
{
}

/// Whether the guard lets the request through on `a`: the token's account
/// is known and, when the route checks a right, that account holds it.
pub open spec fn lets_through(req: Request, g: Guard, a: Answer) -> bool {
    match (g, a) {
        (Guard::AwaitEmail, Answer::Text(Ok(e))) => e@.len() > 0 && check_of(req) is None,
        (Guard::AwaitRight { .. }, Answer::Right(found)) => {
            &&& check_of(req) is Some
            &&& right_outcome(found) is Ok
            &&& allows(check_of(req)->0.rule, right_outcome(found)->Ok_0)
        },
        _ => false,
    }
}

/// The bearer token a request carries, if its route asks for one.
pub open spec fn token_of(req: Request) -> Option<BearerToken> {
    match req {
        Request::Signin(..) => None,
        Request::Login(..) => None,
        Request::EditPwd(_, t) => Some(t),
        Request::UserGet(_, t) => Some(t),
        Request::UserPut(_, t) => Some(t),
        Request::UserDelete(t) => Some(t),
        Request::ProjectPost(_, t) => Some(t),
        Request::ProjectGet(_, t) => Some(t),
        Request::ProjectMines(t) => Some(t),
        Request::ProjectDelete(_, t) => Some(t),
        Request::ProjectKick(_, _, t) => Some(t),
        Request::ListPost(_, t) => Some(t),
        Request::ListPut(_, _, t) => Some(t),
        Request::TaskPost(_, t) => Some(t),
        Request::TaskPut(_, _, t) => Some(t),
        Request::TaskUpdateState(_, t) => Some(t),
    }
}

/// Every request that carries a bearer token starts by looking up the
/// account of that token, standing in the guard.
pub proof fn law_guarded_requests_start_at_the_guard(req: Request, r: (Option<State>, Action))
    requires
        starts(req, r),
        is_guarded(req),
    ensures
        token_of(req) is Some,
        r.0 matches Some(s) && guard_of(s) == Some(Guard::AwaitEmail),
        r.1 == Action::Fetch(Fetch::EmailOfToken { token: token_of(req)->0.value }),
{
}

/// Reading an account, a project or one's projects never writes.
pub proof fn law_reads_do_not_write(req: Request, s: State, a: Answer, r: (Option<State>, Action))
    requires
        req is UserGet || req is ProjectGet || req is ProjectMines,
        awaits(req, s, a),
        steps_to(req, s, a, r),
    ensures
        !(r.1 is Execute),
{
}

/// The right of a caller is looked up for the account the token belongs
/// to, and only once that account is known.
pub proof fn law_rights_are_those_of_the_token_owner(
    req: Request,
    s: State,
    a: Answer,
    r: (Option<State>, Action),
    s2: State,
    email: String,
)
    requires
        awaits(req, s, a),
        steps_to(req, s, a, r),
        guard_of(s) is Some,
        r.0 == Some(s2),
        guard_of(s2) == Some(Guard::AwaitRight { email }),
    ensures
        guard_of(s) == Some(Guard::AwaitEmail),
        a == Answer::Text(Ok(email)),
        email@.len() > 0,
        check_of(req) is Some,
        r.1 == Action::Fetch(right_fetch(check_of(req)->0.scope, email)),
{
}

/// The handling leaves the guard only when the guard lets the request
/// through, and while in the guard it never writes: no write happens for a
/// caller who is unknown or lacks the right the route asks for.
pub proof fn law_writes_need_authorization(req: Request, s: State, a: Answer, r: (Option<State>, Action))
    requires
        awaits(req, s, a),
        steps_to(req, s, a, r),
        guard_of(s) is Some,
    ensures
        r.1 is Execute ==> lets_through(req, guard_of(s)->0, a),
        (r.0 matches Some(s2) && guard_of(s2) is None) ==> lets_through(req, guard_of(s)->0, a),
{
}

/// A request that fails never commits: a failure is answered with the
/// transaction rolled back, or with none open.
pub proof fn law_failures_commit_nothing(req: Request, s: State, a: Answer, r: (Option<State>, Action))
    requires
        awaits(req, s, a),
        steps_to(req, s, a, r),
    ensures
        r.1 matches Action::Respond { end, result } ==> (result is Err ==> end != TxEnd::Commit),
{
}

/// Every transaction that is opened is closed exactly once: it is opened
/// only when none is open, stays open until the client is answered, and is
/// then committed if the request succeeded and rolled back if it failed.
/// The handling ends exactly when the client is answered.
pub proof fn law_transactions_close(req: Request, s: State, a: Answer, r: (Option<State>, Action))
    requires
        awaits(req, s, a),
        steps_to(req, s, a, r),
    ensures
        r.0 is None <==> r.1 is Respond,
        r.1 matches Action::Execute { begin, .. } ==> (begin ==> !in_tx(s)),
        r.0 matches Some(s2) ==> in_tx(s2) == (in_tx(s) || r.1 matches Action::Execute { begin: true, .. }),
        r.1 matches Action::Respond { end, .. } ==> (end == TxEnd::NoTx <==> !in_tx(s)),
        r.1 matches Action::Respond { end, result } ==> (in_tx(s) ==> (end == TxEnd::Commit <==> result is Ok)),
{
}

/// The first step of every request opens a transaction only by its first
/// write, and answers at once only with no transaction open.
pub proof fn law_requests_start_outside_transactions(req: Request, r: (Option<State>, Action))
    requires
        starts(req, r),
    ensures
        r.0 is None <==> r.1 is Respond,
        r.0 matches Some(s2) ==> in_tx(s2) == r.1 matches Action::Execute { begin: true, .. },
        r.1 matches Action::Respond { end, .. } ==> end == TxEnd::NoTx,
{
}

/// How far the handling of a request is from its end, in round trips to
/// the database, not counting the tasks of lists still to be read.
pub open spec fn phase(s: State) -> nat {
    match guard_of(s) {
        Some(Guard::AwaitEmail) => 10,
        Some(Guard::AwaitRight { .. }) => 9,
        None => match s {
            State::Signin(signin::State::InsertingUser { .. }) => 2,
            State::Login(login::State::CheckingPassword) => 2,
            State::EditPwd(edit_pwd::State::SettingPassword { .. }) => 2,
            State::UserDelete(user_delete::State::DeletingUser { .. }) => 2,
            State::ProjectPost(project_post::State::InsertingProject { .. }) => 3,
            State::ProjectPost(project_post::State::AwaitId { .. }) => 2,
            State::ProjectGet(project_get::State::ReadingName) => 4,
            State::ProjectGet(project_get::State::ReadingMembers { .. }) => 3,
            State::ProjectGet(project_get::State::ReadingLists { .. }) => 2,
            State::ProjectDelete(project_delete::State::DeletingProject) => 2,
            State::ListPost(list_post::State::Inserting) => 2,
            State::TaskPost(task_post::State::Inserting) => 2,
            _ => 1,
        },
    }
}

/// The lists of a project whose tasks are still to be read.
pub open spec fn lists_left(s: State) -> nat {
    match s {
        State::ProjectGet(project_get::State::ReadingTasks { rows, lists, .. }) => (rows@.len()
            - lists@.len()) as nat,
        _ => 0,
    }
}

/// Every step brings the handling closer to its end: the phase goes down,
/// or stays while one more list has its tasks read. So every request is
/// answered after finitely many round trips to the database.
pub proof fn law_handling_ends(req: Request, s: State, a: Answer, r: (Option<State>, Action))
    requires
        awaits(req, s, a),
        steps_to(req, s, a, r),
    ensures
        r.0 matches Some(s2) ==> (phase(s2) < phase(s) || (phase(s2) == phase(s) && lists_left(s2)
            < lists_left(s))),
{
}

/// An account created with a password can log in with that password: the
/// hash stored at sign-up is one the password verifies against, so the
/// login goes on to store a fresh token for the account instead of
/// refusing.
pub proof fn law_signed_up_password_logs_in(
    sb: signin::Body,
    r: (Option<signin::State>, Action),
    hash: String,
    lb: login::Body,
    r2: (Option<login::State>, Action),
)
    requires
        signin::starts(sb, r),
        r.1 == (Action::Execute {
            stmt: Stmt::InsertUser { email: sb.email, name: sb.name, password: hash },
            begin: true,
        }),
        lb.password@ == sb.password@,
        login::steps_to(lb, login::State::CheckingPassword, Answer::Text(Ok(hash)), r2),
    ensures
        bcrypt_verification(lb.password@, hash@) == Some(true),
        r2.0 matches Some(login::State::SavingToken { .. }),
        r2.1 matches Action::Execute { stmt: Stmt::SetToken { .. }, .. },
{
}

/// Sign-up answers with the token it stored for the new account's session.
pub proof fn law_signin_returns_the_stored_token(b: signin::Body, token: String, n: usize, m: usize)
    ensures
        signin::next(b, signin::State::InsertingUser { token }, Answer::Executed(Ok(n))) == (
            Some(signin::State::InsertingConnexion { token }),
            Action::Execute { stmt: Stmt::InsertConnexion { token, email: b.email }, begin: false },
        ),
        signin::next(b, signin::State::InsertingConnexion { token }, Answer::Executed(Ok(m))) == (
            None::<signin::State>,
            replied(TxEnd::Commit, Reply::Signin(signin::Success { token })),
        ),
{
}

/// Login answers with the token it stored for the account.
pub proof fn law_login_returns_the_stored_token(
    b: login::Body,
    a: Answer,
    r: (Option<login::State>, Action),
    token: String,
    n: usize,
    r2: (Option<login::State>, Action),
)
    requires
        login::steps_to(b, login::State::CheckingPassword, a, r),
        r.0 == Some(login::State::SavingToken { token }),
        login::steps_to(b, login::State::SavingToken { token }, Answer::Executed(Ok(n)), r2),
    ensures
        r.1 == (Action::Execute { stmt: Stmt::SetToken { email: b.email, token }, begin: false }),
        r2 == (None::<login::State>, replied(TxEnd::NoTx, Reply::Login(login::Success { token }))),
{
}

/// A password change answers with the token it stored for the caller.
pub proof fn law_password_change_returns_the_stored_token(
    b: edit_pwd::Body,
    email: String,
    token: String,
    n: usize,
    r: (Option<edit_pwd::State>, Action),
    m: usize,
    r2: (Option<edit_pwd::State>, Action),
)
    requires
        edit_pwd::steps_to(
            b,
            edit_pwd::State::SettingPassword { email, token },
            Answer::Executed(Ok(n)),
            r,
        ),
        edit_pwd::steps_to(b, edit_pwd::State::SettingToken { token }, Answer::Executed(Ok(m)), r2),
    ensures
        r == (
            Some(edit_pwd::State::SettingToken { token }),
            Action::Execute { stmt: Stmt::SetToken { email, token }, begin: false },
        ),
        r2 == (None::<edit_pwd::State>, replied(TxEnd::Commit, Reply::EditPwd(edit_pwd::Success { token }))),
{
}

/// The creator of a project is made its owner: once the project row is
/// inserted and its id read, the caller the token belongs to is recorded
/// as a member of that project, in the same transaction, with the owner's
/// right.
pub proof fn law_creator_owns_project(
    b: project_post::Body,
    caller: String,
    n: usize,
    id: i64,
)
    requires
        caller@.len() > 0,
    ensures
        project_post::next(b, project_post::State::Guard(Guard::AwaitEmail), Answer::Text(Ok(caller)))
            == (
            Some(project_post::State::InsertingProject { email: caller }),
            Action::Execute { stmt: Stmt::InsertProject { name: b.name }, begin: true },
        ),
        project_post::next(b, project_post::State::InsertingProject { email: caller }, Answer::Executed(Ok(n)))
            == (Some(project_post::State::AwaitId { email: caller }), Action::LastInsertId),
        project_post::next(b, project_post::State::AwaitId { email: caller }, Answer::InsertId(id)) == (
            Some(project_post::State::InsertingOwner { id }),
            Action::Execute { stmt: Stmt::InsertOwner { project: id, email: caller }, begin: false },
        ),
        crate::db::stmt_params(Stmt::InsertOwner { project: id, email: caller })[2]
            == crate::db::ParamView::Text(seq!['1']),
{
}

/// Whether `a` is the answer on which a password change stops outright: its
/// caller's account could not be looked up for a reason other than there
/// being no such account.
pub open spec fn stops_password_change(req: Request, a: Answer) -> bool {
    req is EditPwd && (a matches Answer::Text(Err(e)) && e != DbError::NoRows)
}

/// The handling never waits for an answer the database cannot give: after
/// every step, any answer of the kind the action asks for is one the next
/// state accepts.
pub proof fn law_every_answer_is_accepted(
    req: Request,
    s: State,
    a: Answer,
    r: (Option<State>, Action),
    a2: Answer,
)
    requires
        awaits(req, s, a),
        steps_to(req, s, a, r),
        r.0 is Some,
        answers(r.1, a2),
        !stops_password_change(req, a2),
    ensures
        awaits(req, r.0->0, a2),
{
    // By cases on the route.
    match req {
        Request::ProjectGet(..) => {},
        Request::EditPwd(..) => {},
        Request::Login(..) => {},
        _ => {},
    }
}

/// The first step asks only for answers the handling accepts.
pub proof fn law_first_answer_is_accepted(req: Request, r: (Option<State>, Action), a2: Answer)
    requires
        starts(req, r),
        r.0 is Some,
        answers(r.1, a2),
        !stops_password_change(req, a2),
    ensures
        awaits(req, r.0->0, a2),
{
}

} // verus!
