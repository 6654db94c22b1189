use kanban::db::{Fetch, Param, Stmt};

fn texts(ps: &[Param]) -> Vec<String> {
    ps.iter()
        .map(|p| match p {
            Param::Text(s) => format!("T:{}", s),
            Param::Int(n) => format!("I:{}", n),
        })
        .collect()
}

#[test]
fn fetch_sql() {
    let s = Fetch::EmailOfToken { token: "tok".to_string() }.to_sql();
    assert_eq!(s.text, "SELECT email FROM connexion WHERE token = ?");
    assert_eq!(texts(&s.params), vec!["T:tok"]);
    let s = Fetch::RightFromProject { email: "a@b".to_string(), project: 12 }.to_sql();
    assert_eq!(s.text, "SELECT right FROM project_user WHERE email = ? AND id_project = ?");
    assert_eq!(texts(&s.params), vec!["T:a@b", "T:12"]);
    let s = Fetch::RightFromList { email: "a@b".to_string(), list: -3 }.to_sql();
    assert!(s.text.contains("JOIN list AS l ON pu.id_project = l.id_project"));
    assert!(s.text.contains("WHERE l.id = ? AND pu.email = ?;"));
    assert_eq!(texts(&s.params), vec!["T:-3", "T:a@b"]);
    let s = Fetch::RightFromTask { email: "a@b".to_string(), task: 5 }.to_sql();
    assert!(s.text.contains("JOIN task AS t ON l.id = t.id_list"));
    assert_eq!(texts(&s.params), vec!["T:5", "T:a@b"]);
    let s = Fetch::Tasks { list: 9 }.to_sql();
    assert_eq!(s.text, "SELECT * FROM task WHERE id_list = ?");
    assert_eq!(texts(&s.params), vec!["I:9"]);
    let s = Fetch::Members { project: 4 }.to_sql();
    assert_eq!(texts(&s.params), vec!["I:4"]);
    let s = Fetch::ProjectsOf { email: "a@b".to_string() }.to_sql();
    assert_eq!(s.text, "SELECT p.id, p.name FROM project p JOIN project_user pu ON p.id = pu.id_project WHERE pu.email = ?");
}

#[test]
fn insert_statements_sql() {
    let s = Stmt::InsertOwner { project: 77, email: "a@b".to_string() }.to_sql();
    assert_eq!(s.text, "INSERT INTO project_user (id_project, email, right) VALUES (?,?,?)");
    assert_eq!(texts(&s.params), vec!["T:77", "T:a@b", "T:1"]);
    let s = Stmt::InsertTask {
        name: "t".to_string(),
        tag: 2,
        priority: -5,
        editor: "a@b".to_string(),
        list: 8,
    }
    .to_sql();
    assert_eq!(s.text, "INSERT INTO task (name,tag,priority,id_last_editor,id_list,state,descr) VALUES (?,?,?,?,?,?,?)");
    assert_eq!(texts(&s.params), vec!["T:t", "T:2", "T:-5", "T:a@b", "T:8", "T:0", "T:"]);
    let s = Stmt::InsertUser { email: "e".to_string(), name: "n".to_string(), password: "h".to_string() }.to_sql();
    assert_eq!(texts(&s.params), vec!["T:e", "T:n", "T:h"]);
}

#[test]
fn user_update_sql() {
    let s = Stmt::UpdateUser { email: "new@b".to_string(), name: "".to_string() }.to_sql();
    assert_eq!(s.text, "UPDATE user SET SET email = ? WHERE email = ?");
    assert_eq!(texts(&s.params), vec!["T:new@b"]);
    let s = Stmt::UpdateUser { email: "".to_string(), name: "Neo".to_string() }.to_sql();
    assert_eq!(s.text, "UPDATE user SET SET name = ? WHERE email = ?");
    assert_eq!(texts(&s.params), vec!["T:Neo"]);
    let s = Stmt::UpdateUser { email: "x".to_string(), name: "y".to_string() }.to_sql();
    assert_eq!(s.text, "UPDATE user SET SET email = ? SET name = ? WHERE email = ?");
    assert_eq!(texts(&s.params), vec!["T:x", "T:y"]);
}

#[test]
fn task_update_sql() {
    let s = Stmt::UpdateTask {
        task: 3,
        new_name: Some("n".to_string()),
        new_descr: None,
        new_tag: Some(-1),
        new_priority: Some(2),
        editor: "a@b".to_string(),
    }
    .to_sql();
    assert_eq!(s.text, "UPDATE task SET name = ? ,priority = ? ,id_last_editor = ? WHERE id = ?");
    assert_eq!(texts(&s.params), vec!["T:n", "T:2", "T:a@b", "T:3"]);
    let s = Stmt::UpdateTask {
        task: 3,
        new_name: None,
        new_descr: None,
        new_tag: None,
        new_priority: None,
        editor: "a@b".to_string(),
    }
    .to_sql();
    assert_eq!(s.text, "UPDATE task SET id_last_editor = ? WHERE id = ?");
    assert_eq!(texts(&s.params), vec!["T:a@b", "T:3"]);
    let s = Stmt::UpdateTask {
        task: 1,
        new_name: None,
        new_descr: Some("d".to_string()),
        new_tag: Some(4),
        new_priority: Some(-1),
        editor: "e".to_string(),
    }
    .to_sql();
    assert_eq!(s.text, "UPDATE task SET descr = ? ,tag = ? ,id_last_editor = ? WHERE id = ?");
    assert_eq!(texts(&s.params), vec!["T:d", "T:4", "T:e", "T:1"]);
}

#[test]
fn other_statements_sql() {
    let s = Stmt::Kick { project: 2, email: "m".to_string() }.to_sql();
    assert_eq!(s.text, "DELETE FROM project_user WHERE id_project = ? AND email = ");
    assert_eq!(texts(&s.params), vec!["T:2", "T:m"]);
    let s = Stmt::CycleTaskState { task: 6 }.to_sql();
    assert_eq!(s.text, "UPDATE task SET state = (state+1)%3 WHERE id = ?");
    assert_eq!(texts(&s.params), vec!["T:6"]);
    let s = Stmt::DeleteProject { project: 6 }.to_sql();
    assert_eq!(texts(&s.params), vec!["I:6"]);
    let s = Stmt::RenameList { list: 6, name: "L".to_string() }.to_sql();
    assert_eq!(s.text, "UPDATE list SET name = ? WHERE id = ?");
    assert_eq!(texts(&s.params), vec!["T:L", "T:6"]);
    let s = Stmt::SetToken { email: "e".to_string(), token: "t".to_string() }.to_sql();
    assert_eq!(texts(&s.params), vec!["T:t", "T:e"]);
}
