//! One entry point for every route: the request, where its handling
//! stands, and the step from one database answer to the next action.
use vstd::prelude::*;
use crate::bearer::BearerToken;
use crate::db::{Action, Answer, TxEnd, fail};
use crate::guard::{Check, Guard};
use crate::routes::auth::signin as signin;
use crate::routes::auth::login as login;
use crate::routes::auth::edit_pwd as edit_pwd;
use crate::routes::user::get as user_get;
use crate::routes::user::put as user_put;
use crate::routes::user::delete as user_delete;
use crate::routes::project::post as project_post;
use crate::routes::project::get as project_get;
use crate::routes::project::get_mines as get_mines;
use crate::routes::project::delete as project_delete;
use crate::routes::project::kick as kick;
use crate::routes::list::post as list_post;
use crate::routes::list::put as list_put;
use crate::routes::task::post as task_post;
use crate::routes::task::put as task_put;
use crate::routes::task::update_state as update_state;

verus! {

/// A request to the service, with what its route reads from the HTTP
/// request: path parameters, body and bearer token.
#[derive(Debug)]
pub enum Request {
    /// `POST /api/auth/signin`
    Signin(signin::Body),
    /// `POST /api/auth/login`
    Login(login::Body),
    /// `PUT /api/auth/pwd`
    EditPwd(edit_pwd::Body, BearerToken),
    /// `GET /api/user/<email>`
    UserGet(String, BearerToken),
    /// `PUT /api/user/`
    UserPut(user_put::Body, BearerToken),
    /// `DELETE /api/user/`
    UserDelete(BearerToken),
    /// `POST /api/project/`
    ProjectPost(project_post::Body, BearerToken),
    /// `GET /api/project/<id>`
    ProjectGet(i64, BearerToken),
    /// `GET /api/project/mines`
    ProjectMines(BearerToken),
    /// `DELETE /api/project/<id_project>`
    ProjectDelete(i64, BearerToken),
    /// `DELETE /api/project/<id>/kick/<email>`
    ProjectKick(i64, String, BearerToken),
    /// `POST /api/list/`
    ListPost(list_post::Body, BearerToken),
    /// `PUT /api/list/<id>`
    ListPut(i64, list_put::Body, BearerToken),
    /// `POST /api/task/`
    TaskPost(task_post::Body, BearerToken),
    /// `PUT /api/task/<id>`
    TaskPut(i64, task_put::Body, BearerToken),
    /// `PUT /api/task/state/<id>`
    TaskUpdateState(i64, BearerToken),
}

/// Where the handling of a request stands.
#[derive(Debug)]
pub enum State {
    Signin(signin::State),
    Login(login::State),
    EditPwd(edit_pwd::State),
    UserGet(user_get::State),
    UserPut(user_put::State),
    UserDelete(user_delete::State),
    ProjectPost(project_post::State),
    ProjectGet(project_get::State),
    ProjectMines(get_mines::State),
    ProjectDelete(project_delete::State),
    ProjectKick(kick::State),
    ListPost(list_post::State),
    ListPut(list_put::State),
    TaskPost(task_post::State),
    TaskPut(task_put::State),
    TaskUpdateState(update_state::State),
}

/// A step of the signin route, as a step of the service.
pub open spec fn lift_signin(r: (Option<signin::State>, Action)) -> (Option<State>, Action) {
    (
        match r.0 {
            Some(x) => Some(State::Signin(x)),
            None => None,
        },
        r.1,
    )
}

/// A step of the service, as a step of the signin route.
pub open spec fn unlift_signin(r: (Option<State>, Action)) -> (Option<signin::State>, Action) {
    (
        match r.0 {
            Some(State::Signin(x)) => Some(x),
            _ => None,
        },
        r.1,
    )
}

/// Whether a step of the service stays within the signin route.
pub open spec fn within_signin(r: (Option<State>, Action)) -> bool {
    match r.0 {
        Some(State::Signin(_)) => true,
        Some(_) => false,
        None => true,
    }
}

fn wrap_signin(r: (Option<signin::State>, Action)) -> (out: (Option<State>, Action))
    ensures
        out == lift_signin(r),
{
    let (s, a) = r;
    match s {
        Some(x) => (Some(State::Signin(x)), a),
        None => (None, a),
    }
}

/// A step of the login route, as a step of the service.
pub open spec fn lift_login(r: (Option<login::State>, Action)) -> (Option<State>, Action) {
    (
        match r.0 {
            Some(x) => Some(State::Login(x)),
            None => None,
        },
        r.1,
    )
}

/// A step of the service, as a step of the login route.
pub open spec fn unlift_login(r: (Option<State>, Action)) -> (Option<login::State>, Action) {
    (
        match r.0 {
            Some(State::Login(x)) => Some(x),
            _ => None,
        },
        r.1,
    )
}

/// Whether a step of the service stays within the login route.
pub open spec fn within_login(r: (Option<State>, Action)) -> bool {
    match r.0 {
        Some(State::Login(_)) => true,
        Some(_) => false,
        None => true,
    }
}

fn wrap_login(r: (Option<login::State>, Action)) -> (out: (Option<State>, Action))
    ensures
        out == lift_login(r),
{
    let (s, a) = r;
    match s {
        Some(x) => (Some(State::Login(x)), a),
        None => (None, a),
    }
}

/// A step of the edit_pwd route, as a step of the service.
pub open spec fn lift_edit_pwd(r: (Option<edit_pwd::State>, Action)) -> (Option<State>, Action) {
    (
        match r.0 {
            Some(x) => Some(State::EditPwd(x)),
            None => None,
        },
        r.1,
    )
}

/// A step of the service, as a step of the edit_pwd route.
pub open spec fn unlift_edit_pwd(r: (Option<State>, Action)) -> (Option<edit_pwd::State>, Action) {
    (
        match r.0 {
            Some(State::EditPwd(x)) => Some(x),
            _ => None,
        },
        r.1,
    )
}

/// Whether a step of the service stays within the edit_pwd route.
pub open spec fn within_edit_pwd(r: (Option<State>, Action)) -> bool {
    match r.0 {
        Some(State::EditPwd(_)) => true,
        Some(_) => false,
        None => true,
    }
}

fn wrap_edit_pwd(r: (Option<edit_pwd::State>, Action)) -> (out: (Option<State>, Action))
    ensures
        out == lift_edit_pwd(r),
{
    let (s, a) = r;
    match s {
        Some(x) => (Some(State::EditPwd(x)), a),
        None => (None, a),
    }
}

/// A step of the user_get route, as a step of the service.
pub open spec fn lift_user_get(r: (Option<user_get::State>, Action)) -> (Option<State>, Action) {
    (
        match r.0 {
            Some(x) => Some(State::UserGet(x)),
            None => None,
        },
        r.1,
    )
}

fn wrap_user_get(r: (Option<user_get::State>, Action)) -> (out: (Option<State>, Action))
    ensures
        out == lift_user_get(r),
{
    let (s, a) = r;
    match s {
        Some(x) => (Some(State::UserGet(x)), a),
        None => (None, a),
    }
}

/// A step of the user_put route, as a step of the service.
pub open spec fn lift_user_put(r: (Option<user_put::State>, Action)) -> (Option<State>, Action) {
    (
        match r.0 {
            Some(x) => Some(State::UserPut(x)),
            None => None,
        },
        r.1,
    )
}

fn wrap_user_put(r: (Option<user_put::State>, Action)) -> (out: (Option<State>, Action))
    ensures
        out == lift_user_put(r),
{
    let (s, a) = r;
    match s {
        Some(x) => (Some(State::UserPut(x)), a),
        None => (None, a),
    }
}

/// A step of the user_delete route, as a step of the service.
pub open spec fn lift_user_delete(r: (Option<user_delete::State>, Action)) -> (Option<State>, Action) {
    (
        match r.0 {
            Some(x) => Some(State::UserDelete(x)),
            None => None,
        },
        r.1,
    )
}

fn wrap_user_delete(r: (Option<user_delete::State>, Action)) -> (out: (Option<State>, Action))
    ensures
        out == lift_user_delete(r),
{
    let (s, a) = r;
    match s {
        Some(x) => (Some(State::UserDelete(x)), a),
        None => (None, a),
    }
}

/// A step of the project_post route, as a step of the service.
pub open spec fn lift_project_post(r: (Option<project_post::State>, Action)) -> (Option<State>, Action) {
    (
        match r.0 {
            Some(x) => Some(State::ProjectPost(x)),
            None => None,
        },
        r.1,
    )
}

fn wrap_project_post(r: (Option<project_post::State>, Action)) -> (out: (Option<State>, Action))
    ensures
        out == lift_project_post(r),
{
    let (s, a) = r;
    match s {
        Some(x) => (Some(State::ProjectPost(x)), a),
        None => (None, a),
    }
}

/// A step of the project_get route, as a step of the service.
pub open spec fn lift_project_get(r: (Option<project_get::State>, Action)) -> (Option<State>, Action) {
    (
        match r.0 {
            Some(x) => Some(State::ProjectGet(x)),
            None => None,
        },
        r.1,
    )
}

/// A step of the service, as a step of the project_get route.
pub open spec fn unlift_project_get(r: (Option<State>, Action)) -> (Option<project_get::State>, Action) {
    (
        match r.0 {
            Some(State::ProjectGet(x)) => Some(x),
            _ => None,
        },
        r.1,
    )
}

/// Whether a step of the service stays within the project_get route.
pub open spec fn within_project_get(r: (Option<State>, Action)) -> bool {
    match r.0 {
        Some(State::ProjectGet(_)) => true,
        Some(_) => false,
        None => true,
    }
}

fn wrap_project_get(r: (Option<project_get::State>, Action)) -> (out: (Option<State>, Action))
    ensures
        out == lift_project_get(r),
{
    let (s, a) = r;
    match s {
        Some(x) => (Some(State::ProjectGet(x)), a),
        None => (None, a),
    }
}

/// A step of the get_mines route, as a step of the service.
pub open spec fn lift_get_mines(r: (Option<get_mines::State>, Action)) -> (Option<State>, Action) {
    (
        match r.0 {
            Some(x) => Some(State::ProjectMines(x)),
            None => None,
        },
        r.1,
    )
}

fn wrap_get_mines(r: (Option<get_mines::State>, Action)) -> (out: (Option<State>, Action))
    ensures
        out == lift_get_mines(r),
{
    let (s, a) = r;
    match s {
        Some(x) => (Some(State::ProjectMines(x)), a),
        None => (None, a),
    }
}

/// A step of the project_delete route, as a step of the service.
pub open spec fn lift_project_delete(r: (Option<project_delete::State>, Action)) -> (Option<State>, Action) {
    (
        match r.0 {
            Some(x) => Some(State::ProjectDelete(x)),
            None => None,
        },
        r.1,
    )
}

fn wrap_project_delete(r: (Option<project_delete::State>, Action)) -> (out: (Option<State>, Action))
    ensures
        out == lift_project_delete(r),
{
    let (s, a) = r;
    match s {
        Some(x) => (Some(State::ProjectDelete(x)), a),
        None => (None, a),
    }
}

/// A step of the kick route, as a step of the service.
pub open spec fn lift_kick(r: (Option<kick::State>, Action)) -> (Option<State>, Action) {
    (
        match r.0 {
            Some(x) => Some(State::ProjectKick(x)),
            None => None,
        },
        r.1,
    )
}

fn wrap_kick(r: (Option<kick::State>, Action)) -> (out: (Option<State>, Action))
    ensures
        out == lift_kick(r),
{
    let (s, a) = r;
    match s {
        Some(x) => (Some(State::ProjectKick(x)), a),
        None => (None, a),
    }
}

/// A step of the list_post route, as a step of the service.
pub open spec fn lift_list_post(r: (Option<list_post::State>, Action)) -> (Option<State>, Action) {
    (
        match r.0 {
            Some(x) => Some(State::ListPost(x)),
            None => None,
        },
        r.1,
    )
}

fn wrap_list_post(r: (Option<list_post::State>, Action)) -> (out: (Option<State>, Action))
    ensures
        out == lift_list_post(r),
{
    let (s, a) = r;
    match s {
        Some(x) => (Some(State::ListPost(x)), a),
        None => (None, a),
    }
}

/// A step of the list_put route, as a step of the service.
pub open spec fn lift_list_put(r: (Option<list_put::State>, Action)) -> (Option<State>, Action) {
    (
        match r.0 {
            Some(x) => Some(State::ListPut(x)),
            None => None,
        },
        r.1,
    )
}

fn wrap_list_put(r: (Option<list_put::State>, Action)) -> (out: (Option<State>, Action))
    ensures
        out == lift_list_put(r),
{
    let (s, a) = r;
    match s {
        Some(x) => (Some(State::ListPut(x)), a),
        None => (None, a),
    }
}

/// A step of the task_post route, as a step of the service.
pub open spec fn lift_task_post(r: (Option<task_post::State>, Action)) -> (Option<State>, Action) {
    (
        match r.0 {
            Some(x) => Some(State::TaskPost(x)),
            None => None,
        },
        r.1,
    )
}

fn wrap_task_post(r: (Option<task_post::State>, Action)) -> (out: (Option<State>, Action))
    ensures
        out == lift_task_post(r),
{
    let (s, a) = r;
    match s {
        Some(x) => (Some(State::TaskPost(x)), a),
        None => (None, a),
    }
}

/// A step of the task_put route, as a step of the service.
pub open spec fn lift_task_put(r: (Option<task_put::State>, Action)) -> (Option<State>, Action) {
    (
        match r.0 {
            Some(x) => Some(State::TaskPut(x)),
            None => None,
        },
        r.1,
    )
}

fn wrap_task_put(r: (Option<task_put::State>, Action)) -> (out: (Option<State>, Action))
    ensures
        out == lift_task_put(r),
{
    let (s, a) = r;
    match s {
        Some(x) => (Some(State::TaskPut(x)), a),
        None => (None, a),
    }
}

/// A step of the update_state route, as a step of the service.
pub open spec fn lift_update_state(r: (Option<update_state::State>, Action)) -> (Option<State>, Action) {
    (
        match r.0 {
            Some(x) => Some(State::TaskUpdateState(x)),
            None => None,
        },
        r.1,
    )
}

fn wrap_update_state(r: (Option<update_state::State>, Action)) -> (out: (Option<State>, Action))
    ensures
        out == lift_update_state(r),
{
    let (s, a) = r;
    match s {
        Some(x) => (Some(State::TaskUpdateState(x)), a),
        None => (None, a),
    }
}

/// Whether `r` (the first state, none if the client is answered at once,
/// and the first action) is how the handling of `req` starts.
pub open spec fn starts(req: Request, r: (Option<State>, Action)) -> bool {
    match req {
        Request::Signin(body) => within_signin(r) && signin::starts(body, unlift_signin(r)),
        Request::Login(body) => r == lift_login(login::first(body)),
        Request::EditPwd(body, token) => r == lift_edit_pwd(edit_pwd::first(token)),
        Request::UserGet(email, token) => r == lift_user_get(user_get::first(token)),
        Request::UserPut(body, token) => r == lift_user_put(user_put::first(token)),
        Request::UserDelete(token) => r == lift_user_delete(user_delete::first(token)),
        Request::ProjectPost(body, token) => r == lift_project_post(project_post::first(token)),
        Request::ProjectGet(id, token) => r == lift_project_get(project_get::first(token)),
        Request::ProjectMines(token) => r == lift_get_mines(get_mines::first(token)),
        Request::ProjectDelete(id, token) => r == lift_project_delete(project_delete::first(token)),
        Request::ProjectKick(id, email, token) => r == lift_kick(kick::first(token)),
        Request::ListPost(body, token) => r == lift_list_post(list_post::first(token)),
        Request::ListPut(id, body, token) => r == lift_list_put(list_put::first(token)),
        Request::TaskPost(body, token) => r == lift_task_post(task_post::first(token)),
        Request::TaskPut(id, body, token) => r == lift_task_put(task_put::first(token)),
        Request::TaskUpdateState(id, token) => r == lift_update_state(update_state::first(token)),
    }
}

/// Whether `state` belongs to `req`'s route and `answer` is the one it
/// waits for.
pub open spec fn awaits(req: Request, state: State, answer: Answer) -> bool {
    match (req, state) {
        (Request::Signin(..), State::Signin(x)) => signin::awaits(x, answer),
        (Request::Login(..), State::Login(x)) => login::awaits(x, answer),
        (Request::EditPwd(..), State::EditPwd(x)) => edit_pwd::awaits(x, answer),
        (Request::UserGet(..), State::UserGet(x)) => user_get::awaits(x, answer),
        (Request::UserPut(..), State::UserPut(x)) => user_put::awaits(x, answer),
        (Request::UserDelete(..), State::UserDelete(x)) => user_delete::awaits(x, answer),
        (Request::ProjectPost(..), State::ProjectPost(x)) => project_post::awaits(x, answer),
        (Request::ProjectGet(..), State::ProjectGet(x)) => project_get::awaits(x, answer),
        (Request::ProjectMines(..), State::ProjectMines(x)) => get_mines::awaits(x, answer),
        (Request::ProjectDelete(..), State::ProjectDelete(x)) => project_delete::awaits(x, answer),
        (Request::ProjectKick(..), State::ProjectKick(x)) => kick::awaits(x, answer),
        (Request::ListPost(..), State::ListPost(x)) => list_post::awaits(x, answer),
        (Request::ListPut(..), State::ListPut(x)) => list_put::awaits(x, answer),
        (Request::TaskPost(..), State::TaskPost(x)) => task_post::awaits(x, answer),
        (Request::TaskPut(..), State::TaskPut(x)) => task_put::awaits(x, answer),
        (Request::TaskUpdateState(..), State::TaskUpdateState(x)) => update_state::awaits(x, answer),
        _ => false,
    }
}

/// Whether `r` (the next state, none once the client is answered, and the
/// next action) is the step taken by `req`'s handling from `state` on
/// `answer`.
pub open spec fn steps_to(req: Request, state: State, answer: Answer, r: (Option<State>, Action)) -> bool {
    let a = answer;
    match (req, state) {
        (Request::Signin(body), State::Signin(x)) => r == lift_signin(signin::next(body, x, a)),
        (Request::Login(body), State::Login(x)) => within_login(r) && login::steps_to(body, x, a, unlift_login(r)),
        (Request::EditPwd(body, token), State::EditPwd(x)) => within_edit_pwd(r) && edit_pwd::steps_to(body, x, a, unlift_edit_pwd(r)),
        (Request::UserGet(email, token), State::UserGet(x)) => r == lift_user_get(user_get::next(email, x, a)),
        (Request::UserPut(body, token), State::UserPut(x)) => r == lift_user_put(user_put::next(body, x, a)),
        (Request::UserDelete(token), State::UserDelete(x)) => r == lift_user_delete(user_delete::next(x, a)),
        (Request::ProjectPost(body, token), State::ProjectPost(x)) => r == lift_project_post(project_post::next(body, x, a)),
        (Request::ProjectGet(id, token), State::ProjectGet(x)) => within_project_get(r) && project_get::steps_to(id, x, a, unlift_project_get(r)),
        (Request::ProjectMines(token), State::ProjectMines(x)) => r == lift_get_mines(get_mines::next(x, a)),
        (Request::ProjectDelete(id, token), State::ProjectDelete(x)) => r == lift_project_delete(project_delete::next(id, x, a)),
        (Request::ProjectKick(id, email, token), State::ProjectKick(x)) => r == lift_kick(kick::next(id, email, x, a)),
        (Request::ListPost(body, token), State::ListPost(x)) => r == lift_list_post(list_post::next(body, x, a)),
        (Request::ListPut(id, body, token), State::ListPut(x)) => r == lift_list_put(list_put::next(id, body, x, a)),
        (Request::TaskPost(body, token), State::TaskPost(x)) => r == lift_task_post(task_post::next(body, x, a)),
        (Request::TaskPut(id, body, token), State::TaskPut(x)) => r == lift_task_put(task_put::next(id, body, x, a)),
        (Request::TaskUpdateState(id, token), State::TaskUpdateState(x)) => r == lift_update_state(update_state::next(id, x, a)),
        _ => false,
    }
}

/// The right check `req`'s route makes, if any.
pub open spec fn check_of(req: Request) -> Option<Check> {
    match req {
        Request::Signin(body) => None::<Check>,
        Request::Login(body) => None::<Check>,
        Request::EditPwd(body, token) => None::<Check>,
        Request::UserGet(email, token) => None::<Check>,
        Request::UserPut(body, token) => None::<Check>,
        Request::UserDelete(token) => None::<Check>,
        Request::ProjectPost(body, token) => None::<Check>,
        Request::ProjectGet(id, token) => project_get::check(id),
        Request::ProjectMines(token) => None::<Check>,
        Request::ProjectDelete(id, token) => project_delete::check(id),
        Request::ProjectKick(id, email, token) => kick::check(id),
        Request::ListPost(body, token) => list_post::check(body),
        Request::ListPut(id, body, token) => list_put::check(id),
        Request::TaskPost(body, token) => task_post::check(body),
        Request::TaskPut(id, body, token) => task_put::check(id),
        Request::TaskUpdateState(id, token) => update_state::check(id),
    }
}

/// Whether `req`'s route identifies its caller by a bearer token.
pub open spec fn is_guarded(req: Request) -> bool {
    !(req is Signin || req is Login)
}

/// The guard `state` stands in, if it stands in one.
pub open spec fn guard_of(state: State) -> Option<Guard> {
    match state {
        State::EditPwd(edit_pwd::State::Guard(g)) => Some(g),
        State::UserGet(user_get::State::Guard(g)) => Some(g),
        State::UserPut(user_put::State::Guard(g)) => Some(g),
        State::UserDelete(user_delete::State::Guard(g)) => Some(g),
        State::ProjectPost(project_post::State::Guard(g)) => Some(g),
        State::ProjectGet(project_get::State::Guard(g)) => Some(g),
        State::ProjectMines(get_mines::State::Guard(g)) => Some(g),
        State::ProjectDelete(project_delete::State::Guard(g)) => Some(g),
        State::ProjectKick(kick::State::Guard(g)) => Some(g),
        State::ListPost(list_post::State::Guard(g)) => Some(g),
        State::ListPut(list_put::State::Guard(g)) => Some(g),
        State::TaskPost(task_post::State::Guard(g)) => Some(g),
        State::TaskPut(task_put::State::Guard(g)) => Some(g),
        State::TaskUpdateState(update_state::State::Guard(g)) => Some(g),
        _ => None,
    }
}

/// Whether a transaction is open in `state`.
pub open spec fn in_tx(state: State) -> bool {
    match state {
        State::Signin(signin::State::InsertingUser { .. }) => true,
        State::Signin(signin::State::InsertingConnexion { .. }) => true,
        State::EditPwd(edit_pwd::State::SettingPassword { .. }) => true,
        State::EditPwd(edit_pwd::State::SettingToken { .. }) => true,
        State::UserDelete(user_delete::State::DeletingUser { .. }) => true,
        State::UserDelete(user_delete::State::DeletingConnexion) => true,
        State::ProjectPost(project_post::State::InsertingProject { .. }) => true,
        State::ProjectPost(project_post::State::AwaitId { .. }) => true,
        State::ProjectPost(project_post::State::InsertingOwner { .. }) => true,
        State::ProjectDelete(project_delete::State::DeletingProject) => true,
        State::ProjectDelete(project_delete::State::DeletingMembers) => true,
        _ => false,
    }
}

/// Starts the handling of `req`.
pub fn start(req: &Request) -> (r: (Option<State>, Action))
    ensures
        starts(*req, r),
{
    match req {
        Request::Signin(body) => wrap_signin(signin::begin(body)),
        Request::Login(body) => wrap_login(login::begin(body)),
        Request::EditPwd(body, token) => wrap_edit_pwd(edit_pwd::begin(token)),
        Request::UserGet(email, token) => wrap_user_get(user_get::begin(token)),
        Request::UserPut(body, token) => wrap_user_put(user_put::begin(token)),
        Request::UserDelete(token) => wrap_user_delete(user_delete::begin(token)),
        Request::ProjectPost(body, token) => wrap_project_post(project_post::begin(token)),
        Request::ProjectGet(id, token) => wrap_project_get(project_get::begin(token)),
        Request::ProjectMines(token) => wrap_get_mines(get_mines::begin(token)),
        Request::ProjectDelete(id, token) => wrap_project_delete(project_delete::begin(token)),
        Request::ProjectKick(id, email, token) => wrap_kick(kick::begin(token)),
        Request::ListPost(body, token) => wrap_list_post(list_post::begin(token)),
        Request::ListPut(id, body, token) => wrap_list_put(list_put::begin(token)),
        Request::TaskPost(body, token) => wrap_task_post(task_post::begin(token)),
        Request::TaskPut(id, body, token) => wrap_task_put(task_put::begin(token)),
        Request::TaskUpdateState(id, token) => wrap_update_state(update_state::begin(token)),
    }
}

/// Moves the handling of `req` on with the database's answer to the last
/// action.
pub fn step(req: &Request, state: State, answer: Answer) -> (r: (Option<State>, Action))
    requires
        awaits(*req, state, answer),
    ensures
        steps_to(*req, state, answer, r),
{
    match (req, state) {
        (Request::Signin(body), State::Signin(s)) => wrap_signin(signin::route(body, s, answer)),
        (Request::Login(body), State::Login(s)) => wrap_login(login::route(body, s, answer)),
        (Request::EditPwd(body, token), State::EditPwd(s)) => wrap_edit_pwd(edit_pwd::route(body, s, answer)),
        (Request::UserGet(email, token), State::UserGet(s)) => wrap_user_get(user_get::route(email, s, answer)),
        (Request::UserPut(body, token), State::UserPut(s)) => wrap_user_put(user_put::route(body, s, answer)),
        (Request::UserDelete(token), State::UserDelete(s)) => wrap_user_delete(user_delete::route(s, answer)),
        (Request::ProjectPost(body, token), State::ProjectPost(s)) => wrap_project_post(project_post::route(body, s, answer)),
        (Request::ProjectGet(id, token), State::ProjectGet(s)) => wrap_project_get(project_get::route(*id, s, answer)),
        (Request::ProjectMines(token), State::ProjectMines(s)) => wrap_get_mines(get_mines::route(s, answer)),
        (Request::ProjectDelete(id, token), State::ProjectDelete(s)) => wrap_project_delete(project_delete::route(*id, s, answer)),
        (Request::ProjectKick(id, email, token), State::ProjectKick(s)) => wrap_kick(kick::route(*id, email, s, answer)),
        (Request::ListPost(body, token), State::ListPost(s)) => wrap_list_post(list_post::route(body, s, answer)),
        (Request::ListPut(id, body, token), State::ListPut(s)) => wrap_list_put(list_put::route(*id, body, s, answer)),
        (Request::TaskPost(body, token), State::TaskPost(s)) => wrap_task_post(task_post::route(body, s, answer)),
        (Request::TaskPut(id, body, token), State::TaskPut(s)) => wrap_task_put(task_put::route(*id, body, s, answer)),
        (Request::TaskUpdateState(id, token), State::TaskUpdateState(s)) => wrap_update_state(update_state::route(*id, s, answer)),
        _ => {
            proof {
                assert(false);
            }
            (None, fail(TxEnd::NoTx, 500))
        },
    }
}

} // verus!
