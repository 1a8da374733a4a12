//! The runtime policy of the service and the state that the routes share.

pub mod app_state;
pub mod server_config;

pub use app_state::AppState;
pub use server_config::{ConfigError, CorsPolicy, Environment, ServerConfig};
