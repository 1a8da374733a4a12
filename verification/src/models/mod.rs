//! The records of the service and the composition of its pipeline.

pub mod server;
pub mod todo;

pub use server::Server;
pub use todo::{CreateTodo, Todo, UpdatedTodo};
