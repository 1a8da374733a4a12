//! What each route asks of storage and what it replies for each outcome.
//!
//! A handler awaits storage between two decisions: which statement to run,
//! and which reply to give for what came back. Both decisions are here; the
//! statement is run by the caller.

use crate::models::todo::{CreateTodo, CreateTodoView, Todo, TodoView};
use vstd::prelude::*;
use vstd::string::*;

verus! {

/// The status of a reply that succeeded.
pub const OK: u16 = 200;

/// The status of the reply to a request that created a row.
pub const CREATED: u16 = 201;

/// The status of the reply to a request whose handler took too long.
pub const REQUEST_TIMEOUT: u16 = 408;

/// The status of a reply where storage failed.
pub const INTERNAL_SERVER_ERROR: u16 = 500;

/// The statement that reads every row. It asks for no order.
pub const SELECT_TODOS: &'static str = "SELECT * FROM todos";

/// The statement that inserts one row and hands it back with the id that
/// storage gave it. Its parameters are the title, the description and the
/// done flag of the payload, in this order.
pub const INSERT_TODO: &'static str =
    "INSERT INTO todos (title, description, done) VALUES ($1, $2, $3) RETURNING id, title, description, done";

/// What a route asks of storage.
#[derive(Debug, PartialEq, Eq)]
pub enum Statement {
    /// Run `SELECT_TODOS`.
    SelectTodos,
    /// Run `INSERT_TODO` with these three parameters.
    InsertTodo { title: String, description: String, done: bool },
}

/// What a `Statement` holds.
pub enum StatementView {
    SelectTodos,
    InsertTodo { title: Seq<char>, description: Seq<char>, done: bool },
}

impl View for Statement {
    type V = StatementView;

    open spec fn view(&self) -> StatementView {
        match self {
            Statement::SelectTodos => StatementView::SelectTodos,
            Statement::InsertTodo { title, description, done } => StatementView::InsertTodo {
                title: title@,
                description: description@,
                done: *done,
            },
        }
    }
}

impl Statement {
    /// The text of the statement.
    pub fn sql(&self) -> (text: &'static str)
        ensures
            text@ == match self {
                Statement::SelectTodos => SELECT_TODOS@,
                Statement::InsertTodo { .. } => INSERT_TODO@,
            },
    {
        match self {
            Statement::SelectTodos => SELECT_TODOS,
            Statement::InsertTodo { .. } => INSERT_TODO,
        }
    }
}

/// What creating a todo asks of storage: one insert of the fields of the
/// payload, with no id, which storage assigns.
pub fn insert_statement(json: CreateTodo) -> (statement: Statement)
    ensures
        statement@ == (StatementView::InsertTodo {
            title: json@.title,
            description: json@.description,
            done: json@.done,
        }),
{
    Statement::InsertTodo { title: json.title, description: json.description, done: json.done }
}

/// What listing the todos asks of storage: one select of every row.
pub fn select_statement() -> (statement: Statement)
    ensures
        statement@ == StatementView::SelectTodos,
{
    Statement::SelectTodos
}

/// The body of a reply.
#[derive(Debug, PartialEq, Eq)]
pub enum Body {
    /// Plain text.
    Text(String),
    /// One todo, sent as a JSON object.
    Todo(Todo),
    /// Todos, sent as a JSON array in this order.
    Todos(Vec<Todo>),
}

/// A reply: its status and its body.
#[derive(Debug, PartialEq, Eq)]
pub struct Reply {
    pub status: u16,
    pub body: Body,
}

/// What a `Body` holds.
pub enum BodyView {
    Text(Seq<char>),
    Todo(TodoView),
    Todos(Seq<TodoView>),
}

/// What a `Reply` holds.
pub struct ReplyView {
    pub status: u16,
    pub body: BodyView,
}

/// The views of `todos`, in order.
pub open spec fn todos_view(todos: Seq<Todo>) -> Seq<TodoView> {
    Seq::new(todos.len(), |i: int| todos[i]@)
}

impl View for Body {
    type V = BodyView;

    open spec fn view(&self) -> BodyView {
        match self {
            Body::Text(text) => BodyView::Text(text@),
            Body::Todo(todo) => BodyView::Todo(todo@),
            Body::Todos(todos) => BodyView::Todos(todos_view(todos@)),
        }
    }
}

impl View for Reply {
    type V = ReplyView;

    open spec fn view(&self) -> ReplyView {
        ReplyView { status: self.status, body: self.body@ }
    }
}

/// The reply of the health check.
pub open spec fn health_reply() -> ReplyView {
    ReplyView { status: OK, body: BodyView::Text("This is a health check"@) }
}

/// The reply to a request that failed in storage: the status of a server
/// error, and as text what was attempted followed by what storage reported.
pub open spec fn storage_failure(attempt: Seq<char>, error: Seq<char>) -> ReplyView {
    ReplyView { status: INTERNAL_SERVER_ERROR, body: BodyView::Text(attempt + error) }
}

/// The reply to a request that creates a todo, for the outcome of the
/// insert: the created row as storage returned it, or the failure.
pub open spec fn create_todo_reply(outcome: Result<TodoView, Seq<char>>) -> ReplyView {
    match outcome {
        Ok(todo) => ReplyView { status: CREATED, body: BodyView::Todo(todo) },
        Err(error) => storage_failure("Failed to create Todo: "@, error),
    }
}

/// The reply to a request for all todos, for the outcome of the select: the
/// rows in the order storage returned them, or the failure.
pub open spec fn get_all_todos_reply(outcome: Result<Seq<TodoView>, Seq<char>>) -> ReplyView {
    match outcome {
        Ok(todos) => ReplyView { status: OK, body: BodyView::Todos(todos) },
        Err(error) => storage_failure("Failed to fetch all To-Dos: "@, error),
    }
}

/// A row that storage hands back for an insert is the body of the reply to
/// the request that created it, and where storage later lists that row among
/// all rows, the reply to the request for all todos holds it, unchanged.
pub proof fn lemma_created_row_is_listed(row: TodoView, rows: Seq<TodoView>)
    requires
        rows.contains(row),
    ensures
        create_todo_reply(Ok(row)) == (ReplyView { status: CREATED, body: BodyView::Todo(row) }),
        get_all_todos_reply(Ok(rows)).status == OK,
        get_all_todos_reply(Ok(rows)).body is Todos,
        get_all_todos_reply(Ok(rows)).body->Todos_0.contains(row),
{
}

/// Whatever storage reports, the reply to a failure is a server error, and
/// the reply to a success is none.
pub proof fn lemma_failure_iff_server_error(
    created: Result<TodoView, Seq<char>>,
    listed: Result<Seq<TodoView>, Seq<char>>,
)
    ensures
        create_todo_reply(created).status == INTERNAL_SERVER_ERROR <==> created is Err,
        get_all_todos_reply(listed).status == INTERNAL_SERVER_ERROR <==> listed is Err,
{
}

/// The health check. It asks nothing of storage, so it succeeds whether or
/// not storage can be reached.
pub fn health() -> (reply: Reply)
    ensures
        reply@ == health_reply(),
{
    Reply { status: OK, body: Body::Text(String::from_str("This is a health check")) }
}

/// The reply to a request for all todos. `outcome` is what running
/// `SELECT_TODOS` gave: the rows, or the text of the error.
pub fn get_all_todos(outcome: Result<Vec<Todo>, String>) -> (reply: Reply)
    ensures
        reply@ == get_all_todos_reply(
            match outcome {
                Ok(todos) => Ok(todos_view(todos@)),
                Err(error) => Err(error@),
            },
        ),
{
    match outcome {
        Ok(todos) => Reply { status: OK, body: Body::Todos(todos) },
        Err(error) => Reply {
            status: INTERNAL_SERVER_ERROR,
            body: Body::Text(String::from_str("Failed to fetch all To-Dos: ").concat(error.as_str())),
        },
    }
}

/// The reply to a request that creates a todo. `outcome` is what running
/// `INSERT_TODO` with the fields of the payload gave: the inserted row, or
/// the text of the error. Nothing is tried again.
pub fn create_todo(outcome: Result<Todo, String>) -> (reply: Reply)
    ensures
        reply@ == create_todo_reply(
            match outcome {
                Ok(todo) => Ok(todo@),
                Err(error) => Err(error@),
            },
        ),
{
    match outcome {
        Ok(todo) => Reply { status: CREATED, body: Body::Todo(todo) },
        Err(error) => Reply {
            status: INTERNAL_SERVER_ERROR,
            body: Body::Text(String::from_str("Failed to create Todo: ").concat(error.as_str())),
        },
    }
}

} // verus!
