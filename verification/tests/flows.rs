use kanban::bearer::BearerToken;
use kanban::db::{Action, Answer, DbError, Fetch, Reply, Stmt, TxEnd};
use kanban::handler::{start, step, Request};
use kanban::routes::auth::{edit_pwd, login, signin};
use kanban::routes::list::{post as list_post, put as list_put};
use kanban::routes::project::get::{ListRow, Task, User};
use kanban::routes::project::{get_mines, post as project_post};
use kanban::routes::task::{post as task_post, put as task_put};
use kanban::routes::user::{get as user_get, put as user_put};

fn tok(s: &str) -> BearerToken {
    BearerToken { value: s.to_string() }
}

fn drive(req: &Request, answers: Vec<Answer>) -> Vec<Action> {
    let (mut state, action) = start(req);
    let mut actions = vec![action];
    for a in answers {
        let s = state.take().expect("the handling is still running");
        let (next, action) = step(req, s, a);
        state = next;
        actions.push(action);
    }
    assert!(state.is_none() == matches!(actions.last(), Some(Action::Respond { .. })));
    actions
}

fn email(e: &str) -> Answer {
    Answer::Text(Ok(e.to_string()))
}

fn executed() -> Answer {
    Answer::Executed(Ok(1))
}

fn failure(a: &Action) -> Option<(TxEnd, u16)> {
    match a {
        Action::Respond { end, result: Err(f) } => Some((*end, f.status.code)),
        _ => None,
    }
}

fn unit(a: &Action) -> Option<TxEnd> {
    match a {
        Action::Respond { end, result: Ok(Reply::Unit) } => Some(*end),
        _ => None,
    }
}

fn writes(actions: &[Action]) -> usize {
    actions.iter().filter(|a| matches!(a, Action::Execute { .. })).count()
}

#[test]
fn unknown_token_is_unauthorized() {
    let req = Request::ProjectDelete(3, tok("nope"));
    let acts = drive(&req, vec![Answer::Text(Err(DbError::NoRows))]);
    assert!(matches!(&acts[0], Action::Fetch(Fetch::EmailOfToken { token }) if token == "nope"));
    assert_eq!(failure(&acts[1]), Some((TxEnd::NoTx, 401)));
    let acts = drive(&Request::UserDelete(tok("x")), vec![email("")]);
    assert_eq!(failure(&acts[1]), Some((TxEnd::NoTx, 401)));
    assert_eq!(writes(&acts), 0);
}

#[test]
fn token_lookup_failure_is_server_error() {
    let acts = drive(&Request::ProjectMines(tok("x")), vec![Answer::Text(Err(DbError::Other))]);
    assert_eq!(failure(&acts[1]), Some((TxEnd::NoTx, 500)));
}

#[test]
fn non_owner_cannot_delete_project() {
    for right in [Ok(0), Ok(2), Err(DbError::NoRows)] {
        let acts = drive(&Request::ProjectDelete(3, tok("t")), vec![email("a@b"), Answer::Right(right)]);
        assert!(matches!(&acts[1], Action::Fetch(Fetch::RightFromProject { email, project: 3 }) if email == "a@b"));
        assert_eq!(failure(&acts[2]), Some((TxEnd::NoTx, 403)));
        assert_eq!(writes(&acts), 0);
    }
    let acts = drive(&Request::ProjectDelete(3, tok("t")), vec![email("a@b"), Answer::Right(Err(DbError::Other))]);
    assert_eq!(failure(&acts[2]), Some((TxEnd::NoTx, 500)));
}

#[test]
fn owner_deletes_project_in_one_transaction() {
    let acts = drive(&Request::ProjectDelete(3, tok("t")), vec![email("a@b"), Answer::Right(Ok(1)), executed(), executed()]);
    assert!(matches!(&acts[2], Action::Execute { stmt: Stmt::DeleteProject { project: 3 }, begin: true }));
    assert!(matches!(&acts[3], Action::Execute { stmt: Stmt::DeleteMembers { project: 3 }, begin: false }));
    assert_eq!(unit(&acts[4]), Some(TxEnd::Commit));
}

#[test]
fn failed_second_delete_rolls_back() {
    let acts = drive(
        &Request::ProjectDelete(3, tok("t")),
        vec![email("a@b"), Answer::Right(Ok(1)), executed(), Answer::Executed(Err(DbError::Other))],
    );
    assert_eq!(failure(&acts[4]), Some((TxEnd::Rollback, 500)));
}

#[test]
fn member_may_kick_and_outsider_may_not() {
    let req = Request::ProjectKick(5, "m@x".to_string(), tok("t"));
    let acts = drive(&req, vec![email("a@b"), Answer::Right(Ok(0)), executed()]);
    assert!(matches!(&acts[2], Action::Execute { stmt: Stmt::Kick { project: 5, email }, begin: false } if email == "m@x"));
    assert_eq!(unit(&acts[3]), Some(TxEnd::NoTx));
    let acts = drive(&req, vec![email("a@b"), Answer::Right(Err(DbError::NoRows))]);
    assert_eq!(failure(&acts[2]), Some((TxEnd::NoTx, 403)));
}

#[test]
fn signin_creates_account_and_session() {
    let body = signin::Body { email: "a@b".to_string(), name: "A".to_string(), password: "pw".to_string() };
    let req = Request::Signin(body);
    let acts = drive(&req, vec![executed(), executed()]);
    let hash = match &acts[0] {
        Action::Execute { stmt: Stmt::InsertUser { email, name, password }, begin: true } => {
            assert_eq!(email, "a@b");
            assert_eq!(name, "A");
            password.clone()
        },
        other => panic!("unexpected {:?}", other),
    };
    assert_eq!(kanban::crypto::verify_password(&"pw".to_string(), &hash), Some(true));
    let stored = match &acts[1] {
        Action::Execute { stmt: Stmt::InsertConnexion { token, email }, begin: false } => {
            assert_eq!(email, "a@b");
            token.clone()
        },
        other => panic!("unexpected {:?}", other),
    };
    assert_eq!(stored.len(), 64);
    match &acts[2] {
        Action::Respond { end: TxEnd::Commit, result: Ok(Reply::Signin(s)) } => assert_eq!(s.token, stored),
        other => panic!("unexpected {:?}", other),
    }
}

#[test]
fn signin_with_taken_email_is_conflict() {
    let body = signin::Body { email: "a@b".to_string(), name: "A".to_string(), password: "pw".to_string() };
    let req = Request::Signin(body);
    let acts = drive(&req, vec![Answer::Executed(Err(DbError::ConstraintViolation))]);
    assert_eq!(failure(&acts[1]), Some((TxEnd::Rollback, 409)));
    let acts = drive(&req, vec![Answer::Executed(Err(DbError::Other))]);
    assert_eq!(failure(&acts[1]), Some((TxEnd::Rollback, 500)));
    let acts = drive(&req, vec![executed(), Answer::Executed(Err(DbError::ConstraintViolation))]);
    assert_eq!(failure(&acts[2]), Some((TxEnd::Rollback, 500)));
}

#[test]
fn signed_up_password_logs_in() {
    let req = Request::Signin(signin::Body { email: "a@b".to_string(), name: "A".to_string(), password: "pw".to_string() });
    let hash = match start(&req).1 {
        Action::Execute { stmt: Stmt::InsertUser { password, .. }, .. } => password,
        other => panic!("unexpected {:?}", other),
    };
    let login_req = Request::Login(login::Body { email: "a@b".to_string(), password: "pw".to_string() });
    let acts = drive(&login_req, vec![Answer::Text(Ok(hash.clone())), executed()]);
    assert!(matches!(&acts[0], Action::Fetch(Fetch::PasswordOf { email }) if email == "a@b"));
    let stored = match &acts[1] {
        Action::Execute { stmt: Stmt::SetToken { email, token }, begin: false } => {
            assert_eq!(email, "a@b");
            token.clone()
        },
        other => panic!("unexpected {:?}", other),
    };
    match &acts[2] {
        Action::Respond { end: TxEnd::NoTx, result: Ok(Reply::Login(s)) } => assert_eq!(s.token, stored),
        other => panic!("unexpected {:?}", other),
    }
    let wrong = Request::Login(login::Body { email: "a@b".to_string(), password: "nope".to_string() });
    let acts = drive(&wrong, vec![Answer::Text(Ok(hash))]);
    assert_eq!(failure(&acts[1]), Some((TxEnd::NoTx, 401)));
}

#[test]
fn login_errors() {
    let req = Request::Login(login::Body { email: "a@b".to_string(), password: "pw".to_string() });
    assert_eq!(failure(&drive(&req, vec![Answer::Text(Err(DbError::NoRows))])[1]), Some((TxEnd::NoTx, 404)));
    assert_eq!(failure(&drive(&req, vec![Answer::Text(Err(DbError::Other))])[1]), Some((TxEnd::NoTx, 500)));
    assert_eq!(failure(&drive(&req, vec![Answer::Text(Ok("pw".to_string()))])[1]), Some((TxEnd::NoTx, 401)));
}

#[test]
fn password_change_stores_raw_password_and_new_token() {
    let req = Request::EditPwd(edit_pwd::Body { password: "new".to_string() }, tok("t"));
    let acts = drive(&req, vec![email("a@b"), executed(), executed()]);
    assert!(matches!(&acts[1], Action::Execute { stmt: Stmt::SetPassword { email, password }, begin: true }
        if email == "a@b" && password == "new"));
    let stored = match &acts[2] {
        Action::Execute { stmt: Stmt::SetToken { email, token }, begin: false } => {
            assert_eq!(email, "a@b");
            token.clone()
        },
        other => panic!("unexpected {:?}", other),
    };
    match &acts[3] {
        Action::Respond { end: TxEnd::Commit, result: Ok(Reply::EditPwd(s)) } => assert_eq!(s.token, stored),
        other => panic!("unexpected {:?}", other),
    }
    let acts = drive(&req, vec![email("a@b"), Answer::Executed(Err(DbError::Other))]);
    assert_eq!(failure(&acts[2]), Some((TxEnd::Rollback, 500)));
    let acts = drive(&req, vec![Answer::Text(Err(DbError::NoRows))]);
    assert_eq!(failure(&acts[1]), Some((TxEnd::NoTx, 401)));
}

#[test]
fn user_get_reads_any_account() {
    let req = Request::UserGet("x@y".to_string(), tok("t"));
    let row = user_get::Success { email: "x@y".to_string(), name: "X".to_string() };
    let acts = drive(&req, vec![email("a@b"), Answer::User(Ok(row))]);
    assert!(matches!(&acts[1], Action::Fetch(Fetch::UserByEmail { email }) if email == "x@y"));
    match &acts[2] {
        Action::Respond { end: TxEnd::NoTx, result: Ok(Reply::User(u)) } => {
            assert_eq!(u.email, "x@y");
            assert_eq!(u.name, "X");
        },
        other => panic!("unexpected {:?}", other),
    }
    let acts = drive(&req, vec![email("a@b"), Answer::User(Err(DbError::NoRows))]);
    assert_eq!(failure(&acts[2]), Some((TxEnd::NoTx, 404)));
}

#[test]
fn user_put_sends_update_only_when_something_changes() {
    let req = Request::UserPut(user_put::Body { email: "".to_string(), name: "".to_string() }, tok("t"));
    let acts = drive(&req, vec![email("a@b")]);
    assert_eq!(unit(&acts[1]), Some(TxEnd::NoTx));
    assert_eq!(writes(&acts), 0);
    let req = Request::UserPut(user_put::Body { email: "".to_string(), name: "Neo".to_string() }, tok("t"));
    let acts = drive(&req, vec![email("a@b"), Answer::Executed(Err(DbError::Other))]);
    assert!(matches!(&acts[1], Action::Execute { stmt: Stmt::UpdateUser { email, name }, begin: false }
        if email == "" && name == "Neo"));
    assert_eq!(failure(&acts[2]), Some((TxEnd::NoTx, 500)));
}

#[test]
fn user_delete_removes_account_and_session() {
    let acts = drive(&Request::UserDelete(tok("t")), vec![email("a@b"), executed(), executed()]);
    assert!(matches!(&acts[1], Action::Execute { stmt: Stmt::DeleteUser { email }, begin: true } if email == "a@b"));
    assert!(matches!(&acts[2], Action::Execute { stmt: Stmt::DeleteConnexion { email }, begin: false } if email == "a@b"));
    assert_eq!(unit(&acts[3]), Some(TxEnd::Commit));
}

#[test]
fn project_post_makes_caller_owner() {
    let req = Request::ProjectPost(project_post::Body { name: "P".to_string() }, tok("t"));
    let acts = drive(&req, vec![email("a@b"), executed(), Answer::InsertId(7), executed()]);
    assert!(matches!(&acts[1], Action::Execute { stmt: Stmt::InsertProject { name }, begin: true } if name == "P"));
    assert!(matches!(&acts[2], Action::LastInsertId));
    assert!(matches!(&acts[3], Action::Execute { stmt: Stmt::InsertOwner { project: 7, email }, begin: false } if email == "a@b"));
    assert!(matches!(&acts[4], Action::Respond { end: TxEnd::Commit, result: Ok(Reply::ProjectCreated(s)) } if s.id == 7));
    let acts = drive(&req, vec![email("a@b"), executed(), Answer::InsertId(7), Answer::Executed(Err(DbError::Other))]);
    assert_eq!(failure(&acts[4]), Some((TxEnd::Rollback, 500)));
}

fn task(id: i64, list: i64) -> Task {
    Task {
        id,
        id_list: list,
        name: format!("t{}", id),
        descr: String::new(),
        tag: 0,
        priority: 1,
        state: 2,
        id_last_editor: "a@b".to_string(),
    }
}

#[test]
fn project_get_assembles_lists_with_their_tasks() {
    let req = Request::ProjectGet(4, tok("t"));
    let users = vec![User { email: "a@b".to_string(), name: "A".to_string(), right: 1 }];
    let rows = vec![ListRow { id: 10, name: "todo".to_string() }, ListRow { id: 11, name: "done".to_string() }];
    let acts = drive(
        &req,
        vec![
            email("a@b"),
            Answer::Right(Ok(0)),
            Answer::Text(Ok("Board".to_string())),
            Answer::Members(Ok(users)),
            Answer::Lists(Ok(rows)),
            Answer::Tasks(Ok(vec![task(1, 10), task(2, 10)])),
            Answer::Tasks(Ok(vec![])),
        ],
    );
    assert!(matches!(&acts[2], Action::Fetch(Fetch::ProjectName { project: 4 })));
    assert!(matches!(&acts[3], Action::Fetch(Fetch::Members { project: 4 })));
    assert!(matches!(&acts[4], Action::Fetch(Fetch::Lists { project: 4 })));
    assert!(matches!(&acts[5], Action::Fetch(Fetch::Tasks { list: 10 })));
    assert!(matches!(&acts[6], Action::Fetch(Fetch::Tasks { list: 11 })));
    match &acts[7] {
        Action::Respond { end: TxEnd::NoTx, result: Ok(Reply::Project(p)) } => {
            assert_eq!(p.id, 4);
            assert_eq!(p.name, "Board");
            assert_eq!(p.users.len(), 1);
            assert_eq!(p.lists.len(), 2);
            assert_eq!((p.lists[0].id, p.lists[0].name.as_str(), p.lists[0].tasks.len()), (10, "todo", 2));
            assert_eq!((p.lists[1].id, p.lists[1].name.as_str(), p.lists[1].tasks.len()), (11, "done", 0));
            assert_eq!(p.lists[0].tasks[1].id, 2);
        },
        other => panic!("unexpected {:?}", other),
    }
    assert_eq!(writes(&acts), 0);
}

#[test]
fn project_get_edge_cases() {
    let req = Request::ProjectGet(4, tok("t"));
    let acts = drive(
        &req,
        vec![email("a@b"), Answer::Right(Ok(1)), Answer::Text(Ok("B".to_string())), Answer::Members(Ok(vec![])), Answer::Lists(Ok(vec![]))],
    );
    assert!(matches!(&acts[5], Action::Respond { end: TxEnd::NoTx, result: Ok(Reply::Project(p)) } if p.lists.is_empty()));
    let acts = drive(&req, vec![email("a@b"), Answer::Right(Ok(-1))]);
    assert_eq!(failure(&acts[2]), Some((TxEnd::NoTx, 403)));
    let acts = drive(&req, vec![email("a@b"), Answer::Right(Ok(0)), Answer::Text(Err(DbError::NoRows))]);
    assert_eq!(failure(&acts[3]), Some((TxEnd::NoTx, 404)));
    let rows = vec![ListRow { id: 10, name: "todo".to_string() }];
    let acts = drive(
        &req,
        vec![
            email("a@b"),
            Answer::Right(Ok(0)),
            Answer::Text(Ok("B".to_string())),
            Answer::Members(Ok(vec![])),
            Answer::Lists(Ok(rows)),
            Answer::Tasks(Err(DbError::Other)),
        ],
    );
    assert_eq!(failure(&acts[6]), Some((TxEnd::NoTx, 500)));
}

#[test]
fn get_mines_lists_callers_projects() {
    let ps = vec![get_mines::Project { id: 1, name: "P".to_string() }];
    let acts = drive(&Request::ProjectMines(tok("t")), vec![email("a@b"), Answer::Projects(Ok(ps))]);
    assert!(matches!(&acts[1], Action::Fetch(Fetch::ProjectsOf { email }) if email == "a@b"));
    assert!(matches!(&acts[2], Action::Respond { end: TxEnd::NoTx, result: Ok(Reply::Projects(s)) } if s.projects.len() == 1));
}

#[test]
fn list_post_and_put() {
    let req = Request::ListPost(list_post::Body { id_project: 2, name: "L".to_string() }, tok("t"));
    let acts = drive(&req, vec![email("a@b"), Answer::Right(Ok(0)), executed(), Answer::InsertId(33)]);
    assert!(matches!(&acts[1], Action::Fetch(Fetch::RightFromProject { project: 2, .. })));
    assert!(matches!(&acts[2], Action::Execute { stmt: Stmt::InsertList { name, project: 2 }, begin: false } if name == "L"));
    assert!(matches!(&acts[4], Action::Respond { end: TxEnd::NoTx, result: Ok(Reply::ListCreated(s)) } if s.id == 33));
    let req = Request::ListPut(9, list_put::Body { name: "M".to_string() }, tok("t"));
    let acts = drive(&req, vec![email("a@b"), Answer::Right(Ok(0))]);
    assert!(matches!(&acts[1], Action::Fetch(Fetch::RightFromProject { project: 9, .. })));
    assert_eq!(failure(&acts[2]), Some((TxEnd::NoTx, 403)));
    let acts = drive(&req, vec![email("a@b"), Answer::Right(Ok(1)), executed()]);
    assert!(matches!(&acts[2], Action::Execute { stmt: Stmt::RenameList { list: 9, name }, begin: false } if name == "M"));
    assert_eq!(unit(&acts[3]), Some(TxEnd::NoTx));
}

#[test]
fn task_routes() {
    let req = Request::TaskPost(task_post::Body { id_list: 4, name: "T".to_string(), tag: 1, priority: 2 }, tok("t"));
    let acts = drive(&req, vec![email("a@b"), Answer::Right(Ok(0)), executed(), Answer::InsertId(8)]);
    assert!(matches!(&acts[1], Action::Fetch(Fetch::RightFromList { list: 4, .. })));
    assert!(matches!(&acts[2], Action::Execute { stmt: Stmt::InsertTask { tag: 1, priority: 2, list: 4, editor, .. }, .. } if editor == "a@b"));
    assert!(matches!(&acts[4], Action::Respond { result: Ok(Reply::TaskCreated(s)), .. } if s.id == 8));
    let body = task_put::Body { name: None, descr: Some("d".to_string()), tag: Some(-1), priority: None };
    let req = Request::TaskPut(6, body, tok("t"));
    let acts = drive(&req, vec![email("a@b"), Answer::Right(Ok(1)), executed()]);
    assert!(matches!(&acts[1], Action::Fetch(Fetch::RightFromTask { task: 6, .. })));
    assert!(matches!(&acts[2], Action::Execute { stmt: Stmt::UpdateTask { task: 6, editor, new_tag: Some(-1), .. }, begin: false } if editor == "a@b"));
    let req = Request::TaskUpdateState(6, tok("t"));
    let acts = drive(&req, vec![email("a@b"), Answer::Right(Ok(1)), executed()]);
    assert!(matches!(&acts[2], Action::Execute { stmt: Stmt::CycleTaskState { task: 6 }, begin: false }));
    let acts = drive(&req, vec![email("a@b"), Answer::Right(Ok(0))]);
    assert_eq!(failure(&acts[2]), Some((TxEnd::NoTx, 403)));
}
