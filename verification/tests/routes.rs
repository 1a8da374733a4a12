use todo_service::models::{CreateTodo, Todo};
use todo_service::routes::routes::{
    CREATED, INSERT_TODO, INTERNAL_SERVER_ERROR, OK, REQUEST_TIMEOUT, SELECT_TODOS,
};
use todo_service::routes::{
    create_todo, get_all_todos, health, insert_statement, select_statement, Body, Reply, Statement,
};

fn milk(id: i64) -> Todo {
    Todo::new(id, "milk".to_string(), "two litres".to_string(), false)
}

#[test]
fn status_codes() {
    assert_eq!(OK, 200);
    assert_eq!(CREATED, 201);
    assert_eq!(REQUEST_TIMEOUT, 408);
    assert_eq!(INTERNAL_SERVER_ERROR, 500);
}

#[test]
fn health_is_ok() {
    assert_eq!(
        health(),
        Reply { status: 200, body: Body::Text("This is a health check".to_string()) }
    );
}

#[test]
fn create_todo_replies_with_the_inserted_row() {
    assert_eq!(create_todo(Ok(milk(12))), Reply { status: 201, body: Body::Todo(milk(12)) });
}

#[test]
fn create_todo_reports_a_storage_failure() {
    assert_eq!(
        create_todo(Err("pool timed out".to_string())),
        Reply { status: 500, body: Body::Text("Failed to create Todo: pool timed out".to_string()) }
    );
}

#[test]
fn get_all_todos_replies_with_the_rows_in_order() {
    assert_eq!(
        get_all_todos(Ok(vec![milk(2), milk(1)])),
        Reply { status: 200, body: Body::Todos(vec![milk(2), milk(1)]) }
    );
    assert_eq!(get_all_todos(Ok(vec![])), Reply { status: 200, body: Body::Todos(vec![]) });
}

#[test]
fn get_all_todos_reports_a_storage_failure() {
    assert_eq!(
        get_all_todos(Err("connection refused".to_string())),
        Reply {
            status: 500,
            body: Body::Text("Failed to fetch all To-Dos: connection refused".to_string()),
        }
    );
}

#[test]
fn insert_statement_binds_the_payload() {
    let json = CreateTodo { title: "milk".to_string(), description: "two litres".to_string(), done: true };
    let statement = insert_statement(json);
    assert_eq!(
        statement,
        Statement::InsertTodo {
            title: "milk".to_string(),
            description: "two litres".to_string(),
            done: true,
        }
    );
    assert_eq!(statement.sql(), INSERT_TODO);
    assert!(statement.sql().starts_with("INSERT INTO todos (title, description, done)"));
    assert!(statement.sql().ends_with("RETURNING id, title, description, done"));
}

#[test]
fn select_statement_reads_every_row() {
    assert_eq!(select_statement(), Statement::SelectTodos);
    assert_eq!(select_statement().sql(), SELECT_TODOS);
    assert_eq!(SELECT_TODOS, "SELECT * FROM todos");
}
