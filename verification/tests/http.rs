use kanban::catchers::{conflict, forbidden, internal_server_error, not_found, unauthorized};
use kanban::http::{send_error, Method, RouteInfo, Severity};

fn table(routes: &[RouteInfo]) -> Vec<(Method, &'static str)> {
    routes.iter().map(|r| (r.method, r.path)).collect()
}

#[test]
fn send_error_keeps_known_codes() {
    for code in [401u16, 403, 404, 409, 418, 200, 511] {
        assert_eq!(send_error(code).status.code, code);
        assert_eq!(send_error(code).severity, Severity::Oops);
    }
}

#[test]
fn send_error_maps_unknown_codes_to_500() {
    for code in [0u16, 99, 209, 306, 420, 499, 509, 600, 999] {
        assert_eq!(send_error(code).status.code, 500);
    }
    assert_eq!(send_error(600).severity, Severity::Oops);
}

#[test]
fn send_error_logs_500_as_error() {
    let f = send_error(500);
    assert_eq!(f.status.code, 500);
    assert_eq!(f.severity, Severity::Error);
}

#[test]
fn catchers_answer_their_status_with_an_empty_body() {
    let all = [
        (unauthorized(), 401u16),
        (forbidden(), 403),
        (not_found(), 404),
        (conflict(), 409),
        (internal_server_error(), 500),
    ];
    for (c, code) in all {
        assert_eq!(c.0.code, code);
        assert_eq!(c.1, "");
    }
}

#[test]
fn auth_routes_table() {
    assert_eq!(
        table(&kanban::routes::auth::all_routes()),
        vec![(Method::Post, "/signin"), (Method::Post, "/login"), (Method::Put, "/pwd")]
    );
}

#[test]
fn user_routes_table() {
    let expected = vec![(Method::Get, "/<email>"), (Method::Put, "/"), (Method::Delete, "/")];
    assert_eq!(table(&kanban::routes::user::all_routes()), expected);
    assert_eq!(table(&kanban::all_routes()), expected);
}

#[test]
fn project_routes_table() {
    assert_eq!(
        table(&kanban::routes::project::all_routes()),
        vec![
            (Method::Post, "/"),
            (Method::Get, "/<id>"),
            (Method::Get, "/mines"),
            (Method::Delete, "/<id_project>"),
            (Method::Delete, "/<id>/kick/<email>"),
        ]
    );
}

#[test]
fn list_and_task_routes_tables() {
    assert_eq!(table(&kanban::routes::list::all_routes()), vec![(Method::Post, "/"), (Method::Put, "/<id>")]);
    assert_eq!(
        table(&kanban::routes::task::all_routes()),
        vec![(Method::Post, "/"), (Method::Put, "/<id>"), (Method::Put, "/state/<id>")]
    );
}
