//! A minimal abstraction over an asynchronous task runtime: a capability to
//! spawn asynchronous work (both non-blocking futures and blocking closures)
//! onto a managed pool of worker threads, plus one default configuration of
//! that executor.

pub mod config;
pub mod runtime;

pub use config::RuntimeConfig;
pub use runtime::{spawn_blocking_with, BaseAsyncRuntime, SimpleAsyncRuntime};

pub use tokio::spawn;
pub use tokio::sync::{RwLock, RwLockReadGuard, RwLockWriteGuard};
pub use tokio::task::spawn_local;
pub use tokio::task::JoinHandle;
