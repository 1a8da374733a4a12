//! The routes of the service.

pub mod routes;

pub use routes::{
    create_todo, get_all_todos, health, insert_statement, select_statement, Body, Reply, Statement,
};
