//! The layers that wrap the routes, as settings that the server applies.

pub mod layer;
pub mod middleware;
pub mod middleware_suite;

pub use layer::{AllowedOrigins, CorsSettings, Layer, Method};
pub use middleware::{default_headers, default_methods, Middleware};
pub use middleware_suite::MiddlewareSuite;
