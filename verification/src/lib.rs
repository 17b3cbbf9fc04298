//! An actor-model process registry: a sharded, lock-partitioned map from
//! process identifiers to process handles, together with the identifier
//! generation and remote-resolution policies that feed it, and the message
//! envelope and configuration scaffolding around it.

pub mod actor;
pub mod context;
pub mod kv;
pub mod message;
pub mod process;
pub mod system;

pub use message::Pid;
