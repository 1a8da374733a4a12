//! The state that every request sees.

use crate::config::server_config::ServerConfig;
use vstd::prelude::*;

verus! {

/// What the routes share: the handle `pool` to storage, which bounds and
/// queues its own connections, and the configuration. Nothing in it changes
/// after startup.
#[derive(Clone, Debug)]
pub struct AppState<P> {
    pub pool: P,
    pub cfg: ServerConfig,
}

impl<P> AppState<P> {
    /// The state that holds `pool` and `cfg`.
    pub fn new(pool: P, cfg: ServerConfig) -> (state: Self)
        ensures
            state.pool == pool,
            state.cfg == cfg,
    {
        Self { pool, cfg }
    }
}

} // verus!
