//! What the routes write and answer, column by column: each value a
//! request carries reaches the column it names, and each successful read
//! reaches the client whole.
use vstd::prelude::*;
use crate::db::{Action, Answer, ParamView, Reply, Stmt, TxEnd, stmt_params, stmt_text};
use crate::guard::{Guard, Verdict, guard_verdict};
use crate::text::{decimal_int, lemma_decimal_is_minus_one};
use crate::db::{DbError, Fetch};
use crate::routes::project::get_mines;
use crate::routes::project::delete as project_delete;
use crate::routes::project::kick;
use crate::routes::list::put as list_put;
use crate::routes::user::get as user_get;
use crate::routes::user::delete as user_delete;
use crate::routes::list::post as list_post;
use crate::routes::task::post as task_post;
use crate::routes::task::put as task_put;

verus! {

/// A task edit that the guard lets through sends one update of task `id`
/// that carries the body's fields each in its own place: the new name is
/// the body's name, the new description the body's description, the tag
/// and priority the body's, and the caller is the last editor.
pub proof fn law_task_edit_carries_body_fields(
    id: i64,
    body: task_put::Body,
    g: Guard,
    a: Answer,
    email: String,
    r: (Option<task_put::State>, Action),
)
    requires
        guard_verdict(task_put::check(id), g, a) == Verdict::Pass(email),
        r == task_put::next(id, body, task_put::State::Guard(g), a),
    ensures
        r.1 matches Action::Execute { stmt: Stmt::UpdateTask { task, new_name, new_descr, new_tag, new_priority, editor }, begin } && {
            &&& !begin
            &&& task == id
            &&& new_name == body.name
            &&& new_descr == body.descr
            &&& new_tag == body.tag
            &&& new_priority == body.priority
            &&& editor == email
        },
{
}

/// The update of a task sets exactly the columns it is given, each bound to
/// its own value: a description alone sets `descr` (never `name`), a name
/// alone sets `name` (never `descr`), and both set `name` then `descr`;
/// the last editor and the task id come last.
pub proof fn law_task_update_binds_by_column(task: i64, name: String, descr: String, editor: String)
    ensures
        ({
            let s = Stmt::UpdateTask {
                task,
                new_name: None,
                new_descr: Some(descr),
                new_tag: None,
                new_priority: None,
                editor,
            };
            &&& stmt_text(s) == "UPDATE task SET descr = ? ,id_last_editor = ? WHERE id = ?"@
            &&& stmt_params(s) == seq![
                ParamView::Text(descr@),
                ParamView::Text(editor@),
                ParamView::Text(decimal_int(task as int)),
            ]
        }),
        ({
            let s = Stmt::UpdateTask {
                task,
                new_name: Some(name),
                new_descr: None,
                new_tag: None,
                new_priority: None,
                editor,
            };
            &&& stmt_text(s) == "UPDATE task SET name = ? ,id_last_editor = ? WHERE id = ?"@
            &&& stmt_params(s) == seq![
                ParamView::Text(name@),
                ParamView::Text(editor@),
                ParamView::Text(decimal_int(task as int)),
            ]
        }),
        ({
            let s = Stmt::UpdateTask {
                task,
                new_name: Some(name),
                new_descr: Some(descr),
                new_tag: None,
                new_priority: None,
                editor,
            };
            &&& stmt_text(s) == "UPDATE task SET name = ? ,descr = ? ,id_last_editor = ? WHERE id = ?"@
            &&& stmt_params(s) == seq![
                ParamView::Text(name@),
                ParamView::Text(descr@),
                ParamView::Text(editor@),
                ParamView::Text(decimal_int(task as int)),
            ]
        }),
{
    lemma_decimal_is_minus_one(-1);
    reveal_strlit("UPDATE task SET ");
    reveal_strlit("name = ? ,");
    reveal_strlit("descr = ? ,");
    reveal_strlit("id_last_editor = ? ");
    reveal_strlit("WHERE id = ?");
    reveal_strlit("UPDATE task SET descr = ? ,id_last_editor = ? WHERE id = ?");
    reveal_strlit("UPDATE task SET name = ? ,id_last_editor = ? WHERE id = ?");
    reveal_strlit("UPDATE task SET name = ? ,descr = ? ,id_last_editor = ? WHERE id = ?");
    let s1 = Stmt::UpdateTask { task, new_name: None, new_descr: Some(descr), new_tag: None, new_priority: None, editor };
    let s2 = Stmt::UpdateTask { task, new_name: Some(name), new_descr: None, new_tag: None, new_priority: None, editor };
    let s3 = Stmt::UpdateTask { task, new_name: Some(name), new_descr: Some(descr), new_tag: None, new_priority: None, editor };
    assert(stmt_text(s1) =~= "UPDATE task SET descr = ? ,id_last_editor = ? WHERE id = ?"@);
    assert(stmt_text(s2) =~= "UPDATE task SET name = ? ,id_last_editor = ? WHERE id = ?"@);
    assert(stmt_text(s3) =~= "UPDATE task SET name = ? ,descr = ? ,id_last_editor = ? WHERE id = ?"@);
    assert(stmt_params(s1) =~= seq![
        ParamView::Text(descr@),
        ParamView::Text(editor@),
        ParamView::Text(decimal_int(task as int)),
    ]);
    assert(stmt_params(s2) =~= seq![
        ParamView::Text(name@),
        ParamView::Text(editor@),
        ParamView::Text(decimal_int(task as int)),
    ]);
    assert(stmt_params(s3) =~= seq![
        ParamView::Text(name@),
        ParamView::Text(descr@),
        ParamView::Text(editor@),
        ParamView::Text(decimal_int(task as int)),
    ]);
}

/// Once the caller is known, the projects they belong to are asked for by
/// their email, and every successful answer, the empty one included, is
/// sent back whole with 200: never a failure.
pub proof fn law_own_projects_are_listed_whatever_their_number(
    g: Guard,
    a: Answer,
    email: String,
    projects: Vec<get_mines::Project>,
    r1: (Option<get_mines::State>, Action),
    r2: (Option<get_mines::State>, Action),
)
    requires
        guard_verdict(None, g, a) == Verdict::Pass(email),
        r1 == get_mines::next(get_mines::State::Guard(g), a),
        r2 == get_mines::next(get_mines::State::Reading, Answer::Projects(Ok(projects))),
    ensures
        r1.1 == Action::Fetch(Fetch::ProjectsOf { email }),
        r1.0 matches Some(get_mines::State::Reading),
        r2.0 is None,
        r2.1 matches Action::Respond { end: TxEnd::NoTx, result: Ok(Reply::Projects(reply)) } && reply.projects
            == projects,
{
}

/// A task created by a member of the list's project is inserted into that
/// list with the body's name, tag and priority, in state 0 with an empty
/// description and the caller as last editor; the first value bound to the
/// insert, the `name` column, is the body's name.
pub proof fn law_created_task_has_body_name(
    body: task_post::Body,
    g: Guard,
    a: Answer,
    email: String,
    r: (Option<task_post::State>, Action),
)
    requires
        guard_verdict(task_post::check(body), g, a) == Verdict::Pass(email),
        r == task_post::next(body, task_post::State::Guard(g), a),
    ensures
        r.1 matches Action::Execute { stmt, begin } && {
            &&& !begin
            &&& stmt matches Stmt::InsertTask { name, tag, priority, editor, list } && {
                &&& name == body.name
                &&& tag == body.tag
                &&& priority == body.priority
                &&& editor == email
                &&& list == body.id_list
            }
            &&& stmt_text(stmt)
                == "INSERT INTO task (name,tag,priority,id_last_editor,id_list,state,descr) VALUES (?,?,?,?,?,?,?)"@
            &&& stmt_params(stmt) == seq![
                ParamView::Text(body.name@),
                ParamView::Text(decimal_int(body.tag as int)),
                ParamView::Text(decimal_int(body.priority as int)),
                ParamView::Text(email@),
                ParamView::Text(decimal_int(body.id_list as int)),
                ParamView::Text(seq!['0']),
                ParamView::Text(Seq::empty()),
            ]
        },
{
}

/// A list created by a member of the project is inserted into the body's
/// project under the body's name: the values bound follow the column list
/// `(name,id_project)`, the name first and the decimal text of the project
/// id second.
pub proof fn law_created_list_binds_name_then_project(
    body: list_post::Body,
    g: Guard,
    a: Answer,
    email: String,
    r: (Option<list_post::State>, Action),
)
    requires
        guard_verdict(list_post::check(body), g, a) == Verdict::Pass(email),
        r == list_post::next(body, list_post::State::Guard(g), a),
    ensures
        r.1 matches Action::Execute { stmt, .. } && {
            &&& stmt matches Stmt::InsertList { name, project } && name == body.name && project == body.id_project
            &&& stmt_text(stmt) == "INSERT INTO list (name,id_project) VALUES (?,?)"@
            &&& stmt_params(stmt) == seq![
                ParamView::Text(body.name@),
                ParamView::Text(decimal_int(body.id_project as int)),
            ]
        },
{
}

/// Whatever list is inserted, its name is bound to the `name` column and
/// the decimal text of its project id to the `id_project` column, in the
/// order the insert names them.
pub proof fn law_list_insert_binds_by_column(name: String, project: i64)
    ensures
        stmt_text(Stmt::InsertList { name, project }) == "INSERT INTO list (name,id_project) VALUES (?,?)"@,
        stmt_params(Stmt::InsertList { name, project }) == seq![
            ParamView::Text(name@),
            ParamView::Text(decimal_int(project as int)),
        ],
{
}

/// A list renamed by an owner gets the body's name: the new name is bound
/// to the `name` column and the decimal text of the list id to the `id` of
/// the `WHERE` clause, in that order.
pub proof fn law_renamed_list_binds_name_then_id(
    id: i64,
    body: list_put::Body,
    g: Guard,
    a: Answer,
    email: String,
    r: (Option<list_put::State>, Action),
)
    requires
        guard_verdict(list_put::check(id), g, a) == Verdict::Pass(email),
        r == list_put::next(id, body, list_put::State::Guard(g), a),
    ensures
        r.1 matches Action::Execute { stmt, .. } && {
            &&& stmt matches Stmt::RenameList { list, name } && list == id && name == body.name
            &&& stmt_text(stmt) == "UPDATE list SET name = ? WHERE id = ?"@
            &&& stmt_params(stmt) == seq![ParamView::Text(body.name@), ParamView::Text(decimal_int(id as int))]
        },
{
}

/// The account read is the one named in the path, and a found account is
/// sent back whole with 200; a missing one is answered with 404.
pub proof fn law_read_account_is_sent_whole(
    email: String,
    g: Guard,
    a: Answer,
    caller: String,
    user: user_get::Success,
    r1: (Option<user_get::State>, Action),
    r2: (Option<user_get::State>, Action),
    r3: (Option<user_get::State>, Action),
)
    requires
        guard_verdict(None, g, a) == Verdict::Pass(caller),
        r1 == user_get::next(email, user_get::State::Guard(g), a),
        r2 == user_get::next(email, user_get::State::Reading, Answer::User(Ok(user))),
        r3 == user_get::next(email, user_get::State::Reading, Answer::User(Err(DbError::NoRows))),
    ensures
        r1.1 == Action::Fetch(Fetch::UserByEmail { email }),
        r2.0 is None,
        r2.1 matches Action::Respond { end: TxEnd::NoTx, result: Ok(Reply::User(u)) } && u == user,
        r3.0 is None,
        r3.1 matches Action::Respond { end: TxEnd::NoTx, result: Err(f) } && f.status.code == 404,
{
}

/// Deleting an account removes the caller's own rows: the account row,
/// then the session of that same email, inside one transaction that is
/// committed once both are gone.
pub proof fn law_account_deletion_removes_the_callers_rows(
    g: Guard,
    a: Answer,
    email: String,
    n1: usize,
    n2: usize,
    r1: (Option<user_delete::State>, Action),
    r2: (Option<user_delete::State>, Action),
    r3: (Option<user_delete::State>, Action),
)
    requires
        guard_verdict(None, g, a) == Verdict::Pass(email),
        r1 == user_delete::next(user_delete::State::Guard(g), a),
        r2 == user_delete::next(r1.0->0, Answer::Executed(Ok(n1))),
        r3 == user_delete::next(r2.0->0, Answer::Executed(Ok(n2))),
    ensures
        r1.1 == (Action::Execute { stmt: Stmt::DeleteUser { email }, begin: true }),
        r2.1 == (Action::Execute { stmt: Stmt::DeleteConnexion { email }, begin: false }),
        r3.0 is None,
        (r3.1 matches Action::Respond { end: TxEnd::Commit, result: Ok(Reply::Unit) }),
{
}

/// Deleting a project removes the project row and then the memberships of
/// that same project, inside one transaction that is committed once both
/// are gone.
pub proof fn law_project_deletion_removes_project_and_members(
    id: i64,
    g: Guard,
    a: Answer,
    email: String,
    n1: usize,
    n2: usize,
    r1: (Option<project_delete::State>, Action),
    r2: (Option<project_delete::State>, Action),
    r3: (Option<project_delete::State>, Action),
)
    requires
        guard_verdict(project_delete::check(id), g, a) == Verdict::Pass(email),
        r1 == project_delete::next(id, project_delete::State::Guard(g), a),
        r2 == project_delete::next(id, r1.0->0, Answer::Executed(Ok(n1))),
        r3 == project_delete::next(id, r2.0->0, Answer::Executed(Ok(n2))),
    ensures
        r1.1 == (Action::Execute { stmt: Stmt::DeleteProject { project: id }, begin: true }),
        r2.1 == (Action::Execute { stmt: Stmt::DeleteMembers { project: id }, begin: false }),
        r3.0 is None,
        (r3.1 matches Action::Respond { end: TxEnd::Commit, result: Ok(Reply::Unit) }),
{
}

/// Removing a member deletes the membership of the email in the path from
/// the project in the path, with the project id bound first.
pub proof fn law_kick_targets_the_path_member(
    id: i64,
    member: String,
    g: Guard,
    a: Answer,
    email: String,
    r: (Option<kick::State>, Action),
)
    requires
        guard_verdict(kick::check(id), g, a) == Verdict::Pass(email),
        r == kick::next(id, member, kick::State::Guard(g), a),
    ensures
        r.1 matches Action::Execute { stmt, .. } && {
            &&& stmt matches Stmt::Kick { project, email: target } && project == id && target == member
            &&& stmt_params(stmt) == seq![ParamView::Text(decimal_int(id as int)), ParamView::Text(member@)]
        },
{
}

} // verus!
