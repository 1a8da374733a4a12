//! A small todo-list service, stated as verified decisions: how the runtime
//! configuration is resolved, which layers wrap the routes and in what order,
//! and which reply each handler gives for each outcome of storage.
//!
//! The library decides and the program around it acts. It is handed the
//! values of the environment and gives the configuration; it is handed the
//! configuration and gives the layers, as settings; it is handed what storage
//! returned and gives the reply. Serving, logging, storage and the layers
//! themselves are the program's.
//!
//! Three calls into other crates are believed, not proved, each in one
//! private function: whether a text is a lower-case header name and whether
//! it is a header value (`header`), both asked of the `http` crate, and the
//! text of a fresh random identifier (`models::todo`), asked of the `uuid`
//! crate.

pub mod config;
pub mod header;
pub mod middleware;
pub mod models;
pub mod routes;
pub mod text;
