//! The state of a language server: the cache of open sessions, the compilation worker, and the
//! decisions that the server takes about diagnostics, shutdown and its client.

pub mod compilation;
pub mod config;
pub mod diagnostics;
pub mod error;
pub mod heartbeat;
pub mod path;
pub mod server_state;
pub mod session_cache;
mod session_map;
pub mod task_queue;
pub mod uri;
pub mod usage;
pub mod worker;
