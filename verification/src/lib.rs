//! A task queue on top of a document database: callers enqueue tasks and wait for their outcome,
//! workers claim them, run them and report back. This library holds the rules of that exchange, each
//! with a contract that is proved; it performs no input or output itself.
pub mod caller;
pub mod calls;
pub mod claim;
pub mod config;
pub mod database;
pub mod document;
pub mod error;
pub mod expiry;
pub mod heartbeat;
pub mod indexes;
pub mod laws;
pub mod names;
pub mod object_key;
pub mod occupancy;
pub mod pool;
pub mod pump;
pub mod query;
pub mod schedule;
pub mod stream;
pub mod task;
pub mod time;
pub mod trace;
pub mod tracking;
pub mod wait;
pub mod worker;

pub use caller::SendBuilder;
pub use config::{Config, ConfigBuilder};
pub use error::RequestError;
pub use task::WorkerJob;
pub use trace::TraceContext;
pub use worker::{Worker, WorkerStats};
