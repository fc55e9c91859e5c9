//! Connection management for a pool of Redis connections.
//!
//! A pool owns slots and asks a [`RedisConnectionManager`] what becomes of
//! them: how the outcome of opening a connection fills a slot, which slot may
//! be probed, what the outcome of a liveness probe does to the slot, whether a
//! slot is beyond use, and which error stands for an elapsed deadline. The
//! manager decides; the caller owns the sockets and performs the round trips.

pub mod error;
pub mod lifecycle;
pub mod manager;
pub mod slot;

pub use error::ManagerError;
pub use manager::RedisConnectionManager;
pub use slot::PooledConnection;
