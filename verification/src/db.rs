//! The conversation with the database: what a route asks of it, what it
//! answers, and the SQL text each request to it is sent as.
use vstd::prelude::*;
use vstd::string::*;
use crate::http::{Failure, failure_of, send_error};
use crate::text::{decimal, decimal_int, lemma_decimal_is_minus_one};
use crate::routes::auth::{signin, login, edit_pwd};
use crate::routes::user::get as user_get;
use crate::routes::project::get as project_get;
use crate::routes::project::get_mines;
use crate::routes::project::post as project_post;
use crate::routes::list::post as list_post;
use crate::routes::task::post as task_post;

verus! {

/// How a database request failed.
#[derive(PartialEq, Eq, Structural, Clone, Copy, Debug)]
pub enum DbError {
    /// A single-row query found no row.
    NoRows,
    /// A statement broke a constraint of the schema (a duplicate key).
    ConstraintViolation,
    /// Any other failure.
    Other,
}

/// A value bound to a `?` placeholder.
#[derive(Debug)]
pub enum Param {
    Text(String),
    Int(i64),
}

/// What a bound value is, as data.
pub enum ParamView {
    Text(Seq<char>),
    Int(i64),
}

impl View for Param {
    type V = ParamView;

    open spec fn view(&self) -> ParamView {
        match self {
            Param::Text(s) => ParamView::Text(s@),
            Param::Int(n) => ParamView::Int(*n),
        }
    }
}

/// The values bound to a statement, as data.
pub open spec fn params_view(ps: Seq<Param>) -> Seq<ParamView> {
    ps.map_values(|p: Param| p@)
}

/// A statement as it is sent to SQLite: its text and the values bound to
/// its placeholders, in order.
#[derive(Debug)]
pub struct Sql {
    pub text: String,
    pub params: Vec<Param>,
}

/// A read the routes make.
#[derive(Debug)]
pub enum Fetch {
    /// The email of the account a session token belongs to.
    EmailOfToken { token: String },
    /// The right an account holds in a project.
    RightFromProject { email: String, project: i64 },
    /// The right an account holds in the project of a list.
    RightFromList { email: String, list: i64 },
    /// The right an account holds in the project of a task's list.
    RightFromTask { email: String, task: i64 },
    /// The stored password hash of an account.
    PasswordOf { email: String },
    /// The email and name of an account.
    UserByEmail { email: String },
    /// The name of a project.
    ProjectName { project: i64 },
    /// The members of a project.
    Members { project: i64 },
    /// The lists of a project.
    Lists { project: i64 },
    /// The tasks of a list.
    Tasks { list: i64 },
    /// The projects an account belongs to.
    ProjectsOf { email: String },
}

/// A write the routes make.
#[derive(Debug)]
pub enum Stmt {
    InsertUser { email: String, name: String, password: String },
    InsertConnexion { token: String, email: String },
    SetPassword { email: String, password: String },
    SetToken { email: String, token: String },
    /// Sets the email and name that are not empty.
    UpdateUser { email: String, name: String },
    DeleteUser { email: String },
    DeleteConnexion { email: String },
    InsertProject { name: String },
    InsertOwner { project: i64, email: String },
    DeleteProject { project: i64 },
    DeleteMembers { project: i64 },
    Kick { project: i64, email: String },
    InsertList { name: String, project: i64 },
    RenameList { list: i64, name: String },
    InsertTask { name: String, tag: i64, priority: i64, editor: String, list: i64 },
    /// Sets the fields that are given (a tag or priority of -1 counts as
    /// not given) and the last editor.
    UpdateTask {
        task: i64,
        new_name: Option<String>,
        new_descr: Option<String>,
        new_tag: Option<i64>,
        new_priority: Option<i64>,
        editor: String,
    },
    CycleTaskState { task: i64 },
}

/// What the database answered to the last request.
#[derive(Debug)]
pub enum Answer {
    /// A single text column of a single row.
    Text(Result<String, DbError>),
    /// A single right of a single row.
    Right(Result<i32, DbError>),
    User(Result<user_get::Success, DbError>),
    Members(Result<Vec<project_get::User>, DbError>),
    Lists(Result<Vec<project_get::ListRow>, DbError>),
    Tasks(Result<Vec<project_get::Task>, DbError>),
    Projects(Result<Vec<get_mines::Project>, DbError>),
    /// A statement ran; the number of rows it changed.
    Executed(Result<usize, DbError>),
    /// The row id of the last insert.
    InsertId(i64),
}

/// How the transaction of a request ends, if one is open.
#[derive(PartialEq, Eq, Structural, Clone, Copy, Debug)]
pub enum TxEnd {
    /// No transaction is open.
    NoTx,
    Commit,
    Rollback,
}

/// What a route sends back when it succeeds.
#[derive(Debug)]
pub enum Reply {
    Unit,
    Signin(signin::Success),
    Login(login::Success),
    EditPwd(edit_pwd::Success),
    User(user_get::Success),
    ProjectCreated(project_post::Success),
    Project(project_get::Project),
    Projects(get_mines::Success),
    ListCreated(list_post::Success),
    TaskCreated(task_post::Success),
}

/// What a route asks the surrounding server to do next.
#[derive(Debug)]
pub enum Action {
    /// Run a read and hand back its answer.
    Fetch(Fetch),
    /// Run a write, first opening a transaction when `begin` is set, and
    /// hand back its outcome.
    Execute { stmt: Stmt, begin: bool },
    /// Hand back the row id of the last insert.
    LastInsertId,
    /// End the transaction as told, then answer the client.
    Respond { end: TxEnd, result: Result<Reply, Failure> },
}

/// Answering the client with the failure of `code`, ending the
/// transaction as told.
pub open spec fn failed(end: TxEnd, code: u16) -> Action {
    Action::Respond { end, result: Err(failure_of(code)) }
}

/// Answering the client with a reply, ending the transaction as told.
pub open spec fn replied(end: TxEnd, reply: Reply) -> Action {
    Action::Respond { end, result: Ok(reply) }
}

/// The action that answers the client with the failure of `code`.
pub fn fail(end: TxEnd, code: u16) -> (a: Action)
    ensures
        a == failed(end, code),
{
    Action::Respond { end, result: Err(send_error(code)) }
}

/// Whether `answer` is the kind of answer `action` asks for.
pub open spec fn answers(action: Action, answer: Answer) -> bool {
    match action {
        Action::Fetch(f) => match f {
            Fetch::EmailOfToken { .. } => answer is Text,
            Fetch::PasswordOf { .. } => answer is Text,
            Fetch::ProjectName { .. } => answer is Text,
            Fetch::RightFromProject { .. } => answer is Right,
            Fetch::RightFromList { .. } => answer is Right,
            Fetch::RightFromTask { .. } => answer is Right,
            Fetch::UserByEmail { .. } => answer is User,
            Fetch::Members { .. } => answer is Members,
            Fetch::Lists { .. } => answer is Lists,
            Fetch::Tasks { .. } => answer is Tasks,
            Fetch::ProjectsOf { .. } => answer is Projects,
        },
        Action::Execute { .. } => answer is Executed,
        Action::LastInsertId => answer is InsertId,
        Action::Respond { .. } => false,
    }
}

/// Checks that `answer` is the kind of answer `action` asks for, as the
/// server does before handing an answer back.
pub fn fits(action: &Action, answer: &Answer) -> (r: bool)
    ensures
        r == answers(*action, *answer),
{
    match action {
        Action::Fetch(f) => match f {
            Fetch::EmailOfToken { .. } | Fetch::PasswordOf { .. } | Fetch::ProjectName { .. } => {
                matches!(answer, Answer::Text(_))
            },
            Fetch::RightFromProject { .. } | Fetch::RightFromList { .. } | Fetch::RightFromTask { .. } => {
                matches!(answer, Answer::Right(_))
            },
            Fetch::UserByEmail { .. } => matches!(answer, Answer::User(_)),
            Fetch::Members { .. } => matches!(answer, Answer::Members(_)),
            Fetch::Lists { .. } => matches!(answer, Answer::Lists(_)),
            Fetch::Tasks { .. } => matches!(answer, Answer::Tasks(_)),
            Fetch::ProjectsOf { .. } => matches!(answer, Answer::Projects(_)),
        },
        Action::Execute { .. } => matches!(answer, Answer::Executed(_)),
        Action::LastInsertId => matches!(answer, Answer::InsertId(_)),
        Action::Respond { .. } => false,
    }
}

/// The SQL text of a read.
pub open spec fn fetch_text(f: Fetch) -> Seq<char> {
    match f {
        Fetch::EmailOfToken { .. } => "SELECT email FROM connexion WHERE token = ?"@,
        Fetch::RightFromProject { .. } => "SELECT right FROM project_user WHERE email = ? AND id_project = ?"@,
        Fetch::RightFromList { .. } => "\n        SELECT pu.right \n        FROM project_user AS pu\n        JOIN list AS l ON pu.id_project = l.id_project\n        WHERE l.id = ? AND pu.email = ?;"@,
        Fetch::RightFromTask { .. } => "\n        SELECT pu.right \n        FROM project_user AS pu\n        JOIN list AS l ON pu.id_project = l.id_project\n        JOIN task AS t ON l.id = t.id_list\n        WHERE t.id = ? AND pu.email = ?;\n        "@,
        Fetch::PasswordOf { .. } => "SELECT password FROM user WHERE email = ?"@,
        Fetch::UserByEmail { .. } => "SELECT * FROM user WHERE email = ?"@,
        Fetch::ProjectName { .. } => "SELECT name FROM project WHERE id = ?"@,
        Fetch::Members { .. } => "SELECT u.email, u.name, pu.right FROM user u JOIN project_user pu ON u.email = pu.email WHERE pu.id_project = ?"@,
        Fetch::Lists { .. } => "SELECT id, name FROM list WHERE id_project = ?"@,
        Fetch::Tasks { .. } => "SELECT * FROM task WHERE id_list = ?"@,
        Fetch::ProjectsOf { .. } => "SELECT p.id, p.name FROM project p JOIN project_user pu ON p.id = pu.id_project WHERE pu.email = ?"@,
    }
}

/// The values bound to a read.
pub open spec fn fetch_params(f: Fetch) -> Seq<ParamView> {
    match f {
        Fetch::EmailOfToken { token } => seq![ParamView::Text(token@)],
        Fetch::RightFromProject { email, project } => seq![
            ParamView::Text(email@),
            ParamView::Text(decimal_int(project as int)),
        ],
        Fetch::RightFromList { email, list } => seq![
            ParamView::Text(decimal_int(list as int)),
            ParamView::Text(email@),
        ],
        Fetch::RightFromTask { email, task } => seq![
            ParamView::Text(decimal_int(task as int)),
            ParamView::Text(email@),
        ],
        Fetch::PasswordOf { email } => seq![ParamView::Text(email@)],
        Fetch::UserByEmail { email } => seq![ParamView::Text(email@)],
        Fetch::ProjectName { project } => seq![ParamView::Int(project)],
        Fetch::Members { project } => seq![ParamView::Int(project)],
        Fetch::Lists { project } => seq![ParamView::Int(project)],
        Fetch::Tasks { list } => seq![ParamView::Int(list)],
        Fetch::ProjectsOf { email } => seq![ParamView::Text(email@)],
    }
}

/// A piece of SQL text that is present only when `present` holds.
pub open spec fn when(present: bool, text: Seq<char>) -> Seq<char> {
    if present {
        text
    } else {
        Seq::empty()
    }
}

/// A bound value that is present only when `present` holds.
pub open spec fn param_when(present: bool, p: ParamView) -> Seq<ParamView> {
    if present {
        seq![p]
    } else {
        Seq::empty()
    }
}

/// The value a tag or priority of a task edit stands for: the one given,
/// or -1 when none is.
pub open spec fn or_unset(v: Option<i64>) -> i64 {
    match v {
        Some(x) => x,
        None => -1i64,
    }
}

/// Whether a tag or priority of a task edit is to be written: the text of
/// the value it stands for is not `-1`.
pub open spec fn is_set(v: Option<i64>) -> bool {
    decimal_int(or_unset(v) as int) != seq!['-', '1']
}

/// The SQL text of a write.
pub open spec fn stmt_text(s: Stmt) -> Seq<char> {
    match s {
        Stmt::InsertUser { .. } => "INSERT INTO user (email, name, password) VALUES (?, ?, ?)"@,
        Stmt::InsertConnexion { .. } => "INSERT INTO connexion (token, email) VALUES (?, ?)"@,
        Stmt::SetPassword { .. } => "UPDATE user SET password = ? WHERE email = ?"@,
        Stmt::SetToken { .. } => "UPDATE connexion SET token = ? WHERE email = ?"@,
        Stmt::UpdateUser { email, name } => "UPDATE user SET "@ + when(email@.len() > 0, "SET email = ? "@)
            + when(name@.len() > 0, "SET name = ? "@) + "WHERE email = ?"@,
        Stmt::DeleteUser { .. } => "DELETE FROM user WHERE email = ?"@,
        Stmt::DeleteConnexion { .. } => "DELETE FROM connexion WHERE email = ?"@,
        Stmt::InsertProject { .. } => "INSERT INTO project (name) VALUES (?)"@,
        Stmt::InsertOwner { .. } => "INSERT INTO project_user (id_project, email, right) VALUES (?,?,?)"@,
        Stmt::DeleteProject { .. } => "DELETE FROM project WHERE id = ?"@,
        Stmt::DeleteMembers { .. } => "DELETE FROM project_user WHERE id_project = ?"@,
        Stmt::Kick { .. } => "DELETE FROM project_user WHERE id_project = ? AND email = "@,
        Stmt::InsertList { .. } => "INSERT INTO list (name,id_project) VALUES (?,?)"@,
        Stmt::RenameList { .. } => "UPDATE list SET name = ? WHERE id = ?"@,
        Stmt::InsertTask { .. } => "INSERT INTO task (name,tag,priority,id_last_editor,id_list,state,descr) VALUES (?,?,?,?,?,?,?)"@,
        Stmt::UpdateTask { new_name: name, new_descr: descr, new_tag: tag, new_priority: priority, .. } => "UPDATE task SET "@ + when(
            name is Some,
            "name = ? ,"@,
        ) + when(descr is Some, "descr = ? ,"@) + when(is_set(tag), "tag = ? ,"@) + when(
            is_set(priority),
            "priority = ? ,"@,
        ) + "id_last_editor = ? "@ + "WHERE id = ?"@,
        Stmt::CycleTaskState { .. } => "UPDATE task SET state = (state+1)%3 WHERE id = ?"@,
    }
}

/// The values bound to a write.
pub open spec fn stmt_params(s: Stmt) -> Seq<ParamView> {
    match s {
        Stmt::InsertUser { email, name, password } => seq![
            ParamView::Text(email@),
            ParamView::Text(name@),
            ParamView::Text(password@),
        ],
        Stmt::InsertConnexion { token, email } => seq![ParamView::Text(token@), ParamView::Text(email@)],
        Stmt::SetPassword { email, password } => seq![ParamView::Text(password@), ParamView::Text(email@)],
        Stmt::SetToken { email, token } => seq![ParamView::Text(token@), ParamView::Text(email@)],
        Stmt::UpdateUser { email, name } => param_when(email@.len() > 0, ParamView::Text(email@))
            + param_when(name@.len() > 0, ParamView::Text(name@)),
        Stmt::DeleteUser { email } => seq![ParamView::Text(email@)],
        Stmt::DeleteConnexion { email } => seq![ParamView::Text(email@)],
        Stmt::InsertProject { name } => seq![ParamView::Text(name@)],
        Stmt::InsertOwner { project, email } => seq![
            ParamView::Text(decimal_int(project as int)),
            ParamView::Text(email@),
            ParamView::Text(seq!['1']),
        ],
        Stmt::DeleteProject { project } => seq![ParamView::Int(project)],
        Stmt::DeleteMembers { project } => seq![ParamView::Int(project)],
        Stmt::Kick { project, email } => seq![
            ParamView::Text(decimal_int(project as int)),
            ParamView::Text(email@),
        ],
        Stmt::InsertList { name, project } => seq![
            ParamView::Text(name@),
            ParamView::Text(decimal_int(project as int)),
        ],
        Stmt::RenameList { list, name } => seq![
            ParamView::Text(name@),
            ParamView::Text(decimal_int(list as int)),
        ],
        Stmt::InsertTask { name, tag, priority, editor, list } => seq![
            ParamView::Text(name@),
            ParamView::Text(decimal_int(tag as int)),
            ParamView::Text(decimal_int(priority as int)),
            ParamView::Text(editor@),
            ParamView::Text(decimal_int(list as int)),
            ParamView::Text(seq!['0']),
            ParamView::Text(Seq::empty()),
        ],
        Stmt::UpdateTask {
            task,
            new_name: name,
            new_descr: descr,
            new_tag: tag,
            new_priority: priority,
            editor,
        } => param_when(
            name is Some,
            ParamView::Text(name->0@),
        ) + param_when(descr is Some, ParamView::Text(descr->0@)) + param_when(
            is_set(tag),
            ParamView::Text(decimal_int(or_unset(tag) as int)),
        ) + param_when(is_set(priority), ParamView::Text(decimal_int(or_unset(priority) as int)))
            + seq![ParamView::Text(editor@), ParamView::Text(decimal_int(task as int))],
        Stmt::CycleTaskState { task } => seq![ParamView::Text(decimal_int(task as int))],
    }
}

fn text(s: &String) -> (p: Param)
    ensures
        p@ == ParamView::Text(s@),
{
    Param::Text(s.clone())
}

fn number_text(n: i64) -> (p: Param)
    ensures
        p@ == ParamView::Text(decimal_int(n as int)),
{
    Param::Text(decimal(n))
}

fn one(p: Param) -> (v: Vec<Param>)
    ensures
        params_view(v@) == seq![p@],
{
    let mut v = Vec::new();
    v.push(p);
    proof { assert(params_view(v@) =~= seq![p@]); }
    v
}

fn two(p: Param, q: Param) -> (v: Vec<Param>)
    ensures
        params_view(v@) == seq![p@, q@],
{
    let mut v = Vec::new();
    v.push(p);
    v.push(q);
    proof { assert(params_view(v@) =~= seq![p@, q@]); }
    v
}

impl Fetch {
    /// The SQL text of this read and the values bound to it.
    pub fn to_sql(&self) -> (r: Sql)
        ensures
            r.text@ == fetch_text(*self),
            params_view(r.params@) == fetch_params(*self),
    {
        match self {
            Fetch::EmailOfToken { token } => Sql {
                text: "SELECT email FROM connexion WHERE token = ?".to_owned(),
                params: one(text(token)),
            },
            Fetch::RightFromProject { email, project } => Sql {
                text: "SELECT right FROM project_user WHERE email = ? AND id_project = ?".to_owned(),
                params: two(text(email), number_text(*project)),
            },
            Fetch::RightFromList { email, list } => Sql {
                text: "\n        SELECT pu.right \n        FROM project_user AS pu\n        JOIN list AS l ON pu.id_project = l.id_project\n        WHERE l.id = ? AND pu.email = ?;".to_owned(),
                params: two(number_text(*list), text(email)),
            },
            Fetch::RightFromTask { email, task } => Sql {
                text: "\n        SELECT pu.right \n        FROM project_user AS pu\n        JOIN list AS l ON pu.id_project = l.id_project\n        JOIN task AS t ON l.id = t.id_list\n        WHERE t.id = ? AND pu.email = ?;\n        ".to_owned(),
                params: two(number_text(*task), text(email)),
            },
            Fetch::PasswordOf { email } => Sql {
                text: "SELECT password FROM user WHERE email = ?".to_owned(),
                params: one(text(email)),
            },
            Fetch::UserByEmail { email } => Sql {
                text: "SELECT * FROM user WHERE email = ?".to_owned(),
                params: one(text(email)),
            },
            Fetch::ProjectName { project } => Sql {
                text: "SELECT name FROM project WHERE id = ?".to_owned(),
                params: one(Param::Int(*project)),
            },
            Fetch::Members { project } => Sql {
                text: "SELECT u.email, u.name, pu.right FROM user u JOIN project_user pu ON u.email = pu.email WHERE pu.id_project = ?".to_owned(),
                params: one(Param::Int(*project)),
            },
            Fetch::Lists { project } => Sql {
                text: "SELECT id, name FROM list WHERE id_project = ?".to_owned(),
                params: one(Param::Int(*project)),
            },
            Fetch::Tasks { list } => Sql {
                text: "SELECT * FROM task WHERE id_list = ?".to_owned(),
                params: one(Param::Int(*list)),
            },
            Fetch::ProjectsOf { email } => Sql {
                text: "SELECT p.id, p.name FROM project p JOIN project_user pu ON p.id = pu.id_project WHERE pu.email = ?".to_owned(),
                params: one(text(email)),
            },
        }
    }
}

fn append_when(out: &mut String, present: bool, piece: &str)
    ensures
        final(out)@ == old(out)@ + when(present, piece@),
{
    if present {
        out.append(piece);
    } else {
        assert(old(out)@ + when(present, piece@) =~= old(out)@);
    }
}

fn push_when(ps: &mut Vec<Param>, present: bool, p: Param)
    ensures
        params_view(final(ps)@) == params_view(old(ps)@) + param_when(present, p@),
{
    if present {
        ps.push(p);
        assert(params_view(ps@) =~= params_view(old(ps)@) + param_when(present, p@));
    } else {
        assert(params_view(ps@) =~= params_view(old(ps)@) + param_when(present, p@));
    }
}

impl Stmt {
    /// The SQL text of this write and the values bound to it.
    pub fn to_sql(&self) -> (r: Sql)
        ensures
            r.text@ == stmt_text(*self),
            params_view(r.params@) == stmt_params(*self),
    {
        match self {
            Stmt::InsertUser { email, name, password } => {
                let mut ps = Vec::new();
                ps.push(text(email));
                ps.push(text(name));
                ps.push(text(password));
                assert(params_view(ps@) =~= stmt_params(*self));
                Sql { text: "INSERT INTO user (email, name, password) VALUES (?, ?, ?)".to_owned(), params: ps }
            },
            Stmt::InsertConnexion { token, email } => Sql {
                text: "INSERT INTO connexion (token, email) VALUES (?, ?)".to_owned(),
                params: two(text(token), text(email)),
            },
            Stmt::SetPassword { email, password } => Sql {
                text: "UPDATE user SET password = ? WHERE email = ?".to_owned(),
                params: two(text(password), text(email)),
            },
            Stmt::SetToken { email, token } => Sql {
                text: "UPDATE connexion SET token = ? WHERE email = ?".to_owned(),
                params: two(text(token), text(email)),
            },
            Stmt::UpdateUser { email, name } => {
                let mut sql = "UPDATE user SET ".to_owned();
                let mut ps: Vec<Param> = Vec::new();
                let has_email = !email.as_str().is_empty();
                let has_name = !name.as_str().is_empty();
                append_when(&mut sql, has_email, "SET email = ? ");
                push_when(&mut ps, has_email, text(email));
                append_when(&mut sql, has_name, "SET name = ? ");
                push_when(&mut ps, has_name, text(name));
                sql.append("WHERE email = ?");
                assert(params_view(ps@) =~= stmt_params(*self));
                Sql { text: sql, params: ps }
            },
            Stmt::DeleteUser { email } => Sql {
                text: "DELETE FROM user WHERE email = ?".to_owned(),
                params: one(text(email)),
            },
            Stmt::DeleteConnexion { email } => Sql {
                text: "DELETE FROM connexion WHERE email = ?".to_owned(),
                params: one(text(email)),
            },
            Stmt::InsertProject { name } => Sql {
                text: "INSERT INTO project (name) VALUES (?)".to_owned(),
                params: one(text(name)),
            },
            Stmt::InsertOwner { project, email } => {
                let mut ps = Vec::new();
                ps.push(number_text(*project));
                ps.push(text(email));
                let right = "1".to_owned();
                proof {
                    reveal_strlit("1");
                    assert(right@ =~= seq!['1']);
                }
                ps.push(Param::Text(right));
                assert(params_view(ps@) =~= stmt_params(*self));
                Sql {
                    text: "INSERT INTO project_user (id_project, email, right) VALUES (?,?,?)".to_owned(),
                    params: ps,
                }
            },
            Stmt::DeleteProject { project } => Sql {
                text: "DELETE FROM project WHERE id = ?".to_owned(),
                params: one(Param::Int(*project)),
            },
            Stmt::DeleteMembers { project } => Sql {
                text: "DELETE FROM project_user WHERE id_project = ?".to_owned(),
                params: one(Param::Int(*project)),
            },
            Stmt::Kick { project, email } => Sql {
                text: "DELETE FROM project_user WHERE id_project = ? AND email = ".to_owned(),
                params: two(number_text(*project), text(email)),
            },
            Stmt::InsertList { name, project } => Sql {
                text: "INSERT INTO list (name,id_project) VALUES (?,?)".to_owned(),
                params: two(text(name), number_text(*project)),
            },
            Stmt::RenameList { list, name } => Sql {
                text: "UPDATE list SET name = ? WHERE id = ?".to_owned(),
                params: two(text(name), number_text(*list)),
            },
            Stmt::InsertTask { name, tag, priority, editor, list } => {
                let mut ps = Vec::new();
                ps.push(text(name));
                ps.push(number_text(*tag));
                ps.push(number_text(*priority));
                ps.push(text(editor));
                ps.push(number_text(*list));
                let state = "0".to_owned();
                let descr = "".to_owned();
                proof {
                    reveal_strlit("0");
                    reveal_strlit("");
                    assert(state@ =~= seq!['0']);
                    assert(descr@ =~= Seq::<char>::empty());
                }
                ps.push(Param::Text(state));
                ps.push(Param::Text(descr));
                assert(params_view(ps@) =~= stmt_params(*self));
                Sql {
                    text: "INSERT INTO task (name,tag,priority,id_last_editor,id_list,state,descr) VALUES (?,?,?,?,?,?,?)".to_owned(),
                    params: ps,
                }
            },
            Stmt::UpdateTask {
                task,
                new_name: name,
                new_descr: descr,
                new_tag: tag,
                new_priority: priority,
                editor,
            } => {
                let mut sql = "UPDATE task SET ".to_owned();
                let mut ps: Vec<Param> = Vec::new();
                match name {
                    Some(n) => {
                        append_when(&mut sql, true, "name = ? ,");
                        push_when(&mut ps, true, text(n));
                    },
                    None => {
                        append_when(&mut sql, false, "name = ? ,");
                        push_when(&mut ps, false, Param::Int(0));
                    },
                }
                match descr {
                    Some(d) => {
                        append_when(&mut sql, true, "descr = ? ,");
                        push_when(&mut ps, true, text(d));
                    },
                    None => {
                        append_when(&mut sql, false, "descr = ? ,");
                        push_when(&mut ps, false, Param::Int(0));
                    },
                }
                let tag_value: i64 = match tag {
                    Some(t) => *t,
                    None => -1,
                };
                proof { lemma_decimal_is_minus_one(tag_value as int); }
                append_when(&mut sql, tag_value != -1, "tag = ? ,");
                push_when(&mut ps, tag_value != -1, number_text(tag_value));
                let priority_value: i64 = match priority {
                    Some(p) => *p,
                    None => -1,
                };
                proof { lemma_decimal_is_minus_one(priority_value as int); }
                append_when(&mut sql, priority_value != -1, "priority = ? ,");
                push_when(&mut ps, priority_value != -1, number_text(priority_value));
                sql.append("id_last_editor = ? ");
                ps.push(text(editor));
                sql.append("WHERE id = ?");
                ps.push(number_text(*task));
                assert(params_view(ps@) =~= stmt_params(*self));
                Sql { text: sql, params: ps }
            },
            Stmt::CycleTaskState { task } => Sql {
                text: "UPDATE task SET state = (state+1)%3 WHERE id = ?".to_owned(),
                params: one(number_text(*task)),
            },
        }
    }
}

} // verus!
