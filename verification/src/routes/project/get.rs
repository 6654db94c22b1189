//! `GET /api/project/<id>`: reads a project with its members, lists and tasks.
use vstd::prelude::*;
use crate::bearer::BearerToken;
use crate::db::{Action, Answer, DbError, Fetch, Reply, TxEnd, fail, failed};
use crate::guard::{Check, Guard, Rule, Scope, Verdict, guard_awaits, guard_open, guard_start, guard_step, guard_verdict};

verus! {

/// A task of a list.
#[derive(Debug)]
pub struct Task {
    pub id: i64,
    pub id_list: i64,
    pub name: String,
    pub descr: String,
    pub tag: i64,
    pub priority: i64,
    pub state: i64,
    pub id_last_editor: String,
}

/// A list of the project with its tasks.
#[derive(Debug)]
pub struct List {
    pub id: i64,
    pub name: String,
    pub tasks: Vec<Task>,
}

/// A list of the project as its row stores it, before its tasks are read.
#[derive(Debug)]
pub struct ListRow {
    pub id: i64,
    pub name: String,
}

/// A member of the project and the right they hold in it.
#[derive(Debug)]
pub struct User {
    pub email: String,
    pub name: String,
    pub right: i64,
}

/// The reply: the whole project.
#[derive(Debug)]
pub struct Project {
    pub id: i64,
    pub name: String,
    pub lists: Vec<List>,
    pub users: Vec<User>,
}

/// Where the reading stands.
#[derive(Debug)]
pub enum State {
    Guard(Guard),
    /// The project's name has been asked for.
    ReadingName,
    /// The project's members have been asked for.
    ReadingMembers { name: String },
    /// The project's lists have been asked for.
    ReadingLists { name: String, users: Vec<User> },
    /// The tasks of `rows[lists.len()]` have been asked for; `lists` holds
    /// the lists read so far, with their tasks.
    ReadingTasks { name: String, users: Vec<User>, rows: Vec<ListRow>, lists: Vec<List> },
}

/// Any member of the project may read it.
pub open spec fn check(id: i64) -> Option<Check> {
    Some(Check { scope: Scope::Project(id), rule: Rule::Member })
}

/// The first step: identify the caller.
pub open spec fn first(token: BearerToken) -> (Option<State>, Action) {
    (Some(State::Guard(guard_open(token).0)), Action::Fetch(guard_open(token).1))
}

/// Whether the state is one the reading can be in: while tasks are being
/// read, some list row is still waiting for its tasks.
pub open spec fn well_formed(state: State) -> bool {
    match state {
        State::ReadingTasks { rows, lists, .. } => lists@.len() < rows@.len(),
        _ => true,
    }
}

/// Whether `answer` is the one the state waits for.
pub open spec fn awaits(state: State, answer: Answer) -> bool {
    &&& well_formed(state)
    &&& match state {
        State::Guard(g) => guard_awaits(g, answer),
        State::ReadingName => answer is Text,
        State::ReadingMembers { .. } => answer is Members,
        State::ReadingLists { .. } => answer is Lists,
        State::ReadingTasks { .. } => answer is Tasks,
    }
}

/// Whether `a` answers the client with project `id` made of these parts.
pub open spec fn answers_project(a: Action, id: i64, name: String, users: Vec<User>, lists: Seq<List>) -> bool {
    match a {
        Action::Respond { end: TxEnd::NoTx, result: Ok(Reply::Project(p)) } => {
            &&& p.id == id
            &&& p.name == name
            &&& p.users == users
            &&& p.lists@ == lists
        },
        _ => false,
    }
}

/// Whether `s` is reading the tasks of the next list, with these parts.
pub open spec fn reads_tasks(
    s: Option<State>,
    name: String,
    users: Vec<User>,
    rows: Vec<ListRow>,
    lists: Seq<List>,
) -> bool {
    match s {
        Some(State::ReadingTasks { name: n, users: u, rows: r, lists: l }) => {
            &&& n == name
            &&& u == users
            &&& r == rows
            &&& l@ == lists
        },
        _ => false,
    }
}

/// The list made of a row and the tasks read for it.
pub open spec fn list_of(row: ListRow, tasks: Vec<Task>) -> List {
    List { id: row.id, name: row.name, tasks }
}

/// Whether `r` (the next state, none once the client is answered, and the
/// next action) is the step taken from `state` on `answer`.
pub open spec fn steps_to(id: i64, state: State, answer: Answer, r: (Option<State>, Action)) -> bool {
    match state {
        State::Guard(g) => r == match guard_verdict(check(id), g, answer) {
            Verdict::Ask(g2, f) => (Some(State::Guard(g2)), Action::Fetch(f)),
            Verdict::Refuse(f) => (None, Action::Respond { end: TxEnd::NoTx, result: Err(f) }),
            Verdict::Pass(_) => (Some(State::ReadingName), Action::Fetch(Fetch::ProjectName { project: id })),
        },
        State::ReadingName => r == match answer {
            Answer::Text(Ok(name)) => (Some(State::ReadingMembers { name }), Action::Fetch(Fetch::Members { project: id })),
            Answer::Text(Err(DbError::NoRows)) => (None, failed(TxEnd::NoTx, 404)),
            _ => (None, failed(TxEnd::NoTx, 500)),
        },
        State::ReadingMembers { name } => r == match answer {
            Answer::Members(Ok(users)) => (
                Some(State::ReadingLists { name, users }),
                Action::Fetch(Fetch::Lists { project: id }),
            ),
            _ => (None, failed(TxEnd::NoTx, 500)),
        },
        State::ReadingLists { name, users } => match answer {
            Answer::Lists(Ok(rows)) => if rows@.len() == 0 {
                r.0 is None && answers_project(r.1, id, name, users, Seq::empty())
            } else {
                reads_tasks(r.0, name, users, rows, Seq::empty()) && r.1 == Action::Fetch(
                    Fetch::Tasks { list: rows@[0].id },
                )
            },
            _ => r == (None::<State>, failed(TxEnd::NoTx, 500)),
        },
        State::ReadingTasks { name, users, rows, lists } => match answer {
            Answer::Tasks(Ok(tasks)) => {
                let k = lists@.len();
                let done = lists@.push(list_of(rows@[k as int], tasks));
                if k + 1 < rows@.len() {
                    reads_tasks(r.0, name, users, rows, done) && r.1 == Action::Fetch(
                        Fetch::Tasks { list: rows@[k + 1 as int].id },
                    )
                } else {
                    r.0 is None && answers_project(r.1, id, name, users, done)
                }
            },
            _ => r == (None::<State>, failed(TxEnd::NoTx, 500)),
        },
    }
}

/// Whether `lists` are the first lists of `rows`, in order, each with the
/// id and name of its row.
pub open spec fn follows_rows(rows: Seq<ListRow>, lists: Seq<List>) -> bool {
    &&& lists.len() <= rows.len()
    &&& forall|i: int| 0 <= i < lists.len() ==> (#[trigger] lists[i]).id == rows[i].id && lists[i].name == rows[i].name
}

/// Whether the lists read so far follow the list rows.
pub open spec fn lists_follow_rows(s: State) -> bool {
    match s {
        State::ReadingTasks { rows, lists, .. } => follows_rows(rows@, lists@),
        _ => true,
    }
}

/// The lists of the project an action answers with, if it does.
pub open spec fn replied_lists(a: Action) -> Option<Seq<List>> {
    match a {
        Action::Respond { result: Ok(Reply::Project(p)), .. } => Some(p.lists@),
        _ => None,
    }
}

/// The project sent back has one list per list row of the project, in the
/// order the rows were read, each with its row's id and name; the tasks of
/// each are read by that id.
pub proof fn law_lists_follow_rows(id: i64, s: State, a: Answer, r: (Option<State>, Action))
    requires
        awaits(s, a),
        lists_follow_rows(s),
        steps_to(id, s, a, r),
    ensures
        r.0 matches Some(s2) ==> lists_follow_rows(s2),
        s matches State::ReadingTasks { rows, .. } ==> (replied_lists(r.1) matches Some(ls) ==> (
        ls.len() == rows@.len() && follows_rows(rows@, ls))),
        s matches State::ReadingLists { .. } ==> (a matches Answer::Lists(Ok(rows)) ==> (replied_lists(
            r.1,
        ) matches Some(ls) ==> ls.len() == rows@.len())),
{
    match s {
        State::ReadingTasks { name, users, rows, lists } => {
            match a {
                Answer::Tasks(Ok(tasks)) => {
                    let k = lists@.len();
                    let done = lists@.push(list_of(rows@[k as int], tasks));
                    assert(follows_rows(rows@, done)) by {
                        assert forall|i: int| 0 <= i < done.len() implies (#[trigger] done[i]).id == rows@[i].id
                            && done[i].name == rows@[i].name by {
                            if i < k {
                                assert(done[i] == lists@[i]);
                            }
                        }
                    }
                },
                _ => {},
            }
        },
        _ => {},
    }
}

/// Whether each list read so far holds the tasks `tasks_of` gives for its
/// row's id.
pub open spec fn holds_tasks_of(rows: Seq<ListRow>, lists: Seq<List>, tasks_of: spec_fn(i64) -> Vec<Task>) -> bool {
    &&& lists.len() <= rows.len()
    &&& forall|i: int| 0 <= i < lists.len() ==> (#[trigger] lists[i]).tasks == tasks_of(rows[i].id)
}

/// Where the database answers the read of a list's tasks by that list's id
/// (`tasks_of`), the project sent back has, at each position `i`, the last
/// one included, a list holding exactly the tasks answered for
/// `Fetch::Tasks { list: rows[i].id }`: the tasks of each list are asked
/// for by the id of the next row, and every task answered is kept.
pub proof fn law_lists_hold_the_tasks_read(
    id: i64,
    s: State,
    a: Answer,
    r: (Option<State>, Action),
    tasks_of: spec_fn(i64) -> Vec<Task>,
)
    requires
        awaits(s, a),
        steps_to(id, s, a, r),
        s matches State::ReadingTasks { rows, lists, .. } ==> {
            &&& holds_tasks_of(rows@, lists@, tasks_of)
            &&& a == Answer::Tasks(Ok(tasks_of(rows@[lists@.len() as int].id)))
        },
    ensures
        s matches State::ReadingLists { .. } ==> (a matches Answer::Lists(Ok(rows)) ==> (
        r.0 matches Some(State::ReadingTasks { rows: r2, lists: l2, .. }) ==> {
            &&& r2 == rows
            &&& l2@.len() == 0
            &&& r.1 == Action::Fetch(Fetch::Tasks { list: rows@[0].id })
        })),
        s matches State::ReadingTasks { rows, lists, .. } ==> {
            &&& r.0 matches Some(State::ReadingTasks { rows: r2, lists: l2, .. }) ==> {
                &&& r2 == rows
                &&& l2@.len() == lists@.len() + 1
                &&& holds_tasks_of(rows@, l2@, tasks_of)
                &&& r.1 == Action::Fetch(Fetch::Tasks { list: rows@[l2@.len() as int].id })
            }
            &&& replied_lists(r.1) matches Some(ls) ==> {
                &&& ls.len() == rows@.len()
                &&& forall|i: int| 0 <= i < ls.len() ==> (#[trigger] ls[i]).tasks == tasks_of(rows@[i].id)
            }
        },
{
    match s {
        State::ReadingTasks { name, users, rows, lists } => {
            match a {
                Answer::Tasks(Ok(tasks)) => {
                    let k = lists@.len();
                    let done = lists@.push(list_of(rows@[k as int], tasks));
                    assert(holds_tasks_of(rows@, done, tasks_of)) by {
                        assert forall|i: int| 0 <= i < done.len() implies (#[trigger] done[i]).tasks == tasks_of(
                            rows@[i].id,
                        ) by {
                            if i < k {
                                assert(done[i] == lists@[i]);
                            }
                        }
                    }
                },
                _ => {},
            }
        },
        _ => {},
    }
}

/// Starts the handling of the request.
pub fn begin(token: &BearerToken) -> (r: (Option<State>, Action))
    ensures
        r == first(*token),
{
    let (g, f) = guard_start(token);
    (Some(State::Guard(g)), Action::Fetch(f))
}

/// Moves the handling on with the database's answer to the last action;
/// `id` is the project.
pub fn route(id: i64, state: State, answer: Answer) -> (r: (Option<State>, Action))
    requires
        awaits(state, answer),
    ensures
        steps_to(id, state, answer, r),
        r.0 matches Some(s) ==> well_formed(s),
{
    match state {
        State::Guard(g) => match guard_step(Some(Check { scope: Scope::Project(id), rule: Rule::Member }), g, answer) {
            Verdict::Ask(g2, f) => (Some(State::Guard(g2)), Action::Fetch(f)),
            Verdict::Refuse(f) => (None, Action::Respond { end: TxEnd::NoTx, result: Err(f) }),
            Verdict::Pass(_) => (Some(State::ReadingName), Action::Fetch(Fetch::ProjectName { project: id })),
        },
        State::ReadingName => match answer {
            Answer::Text(Ok(name)) => (
                Some(State::ReadingMembers { name }),
                Action::Fetch(Fetch::Members { project: id }),
            ),
            Answer::Text(Err(DbError::NoRows)) => (None, fail(TxEnd::NoTx, 404)),
            _ => (None, fail(TxEnd::NoTx, 500)),
        },
        State::ReadingMembers { name } => match answer {
            Answer::Members(Ok(users)) => (
                Some(State::ReadingLists { name, users }),
                Action::Fetch(Fetch::Lists { project: id }),
            ),
            _ => (None, fail(TxEnd::NoTx, 500)),
        },
        State::ReadingLists { name, users } => match answer {
            Answer::Lists(Ok(rows)) => {
                let lists: Vec<List> = Vec::new();
                if rows.len() == 0 {
                    let project = Project { id, name, lists, users };
                    (None, Action::Respond { end: TxEnd::NoTx, result: Ok(Reply::Project(project)) })
                } else {
                    let first_list = rows[0].id;
                    (
                        Some(State::ReadingTasks { name, users, rows, lists }),
                        Action::Fetch(Fetch::Tasks { list: first_list }),
                    )
                }
            },
            _ => (None, fail(TxEnd::NoTx, 500)),
        },
        State::ReadingTasks { name, users, rows, mut lists } => match answer {
            Answer::Tasks(Ok(tasks)) => {
                let k = lists.len();
                let n = rows.len();
                let list = List { id: rows[k].id, name: rows[k].name.clone(), tasks };
                lists.push(list);
                if k + 1 < n {
                    let next_list = rows[k + 1].id;
                    (
                        Some(State::ReadingTasks { name, users, rows, lists }),
                        Action::Fetch(Fetch::Tasks { list: next_list }),
                    )
                } else {
                    let project = Project { id, name, lists, users };
                    (None, Action::Respond { end: TxEnd::NoTx, result: Ok(Reply::Project(project)) })
                }
            },
            _ => (None, fail(TxEnd::NoTx, 500)),
        },
    }
}

} // verus!
