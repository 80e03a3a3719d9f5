//! A single-process background job queue: a durable-style job store with an
//! atomic claim operation, a dispatcher that enqueues typed work, a retry
//! policy with exponential backoff, and a worker step that executes one
//! claimed job against a registry of handlers.

pub mod dispatch;
pub mod laws;
pub mod policy;
pub mod record;
pub mod store;
pub mod worker;

pub use dispatch::DispatchError;
pub use dispatch::dispatch;
pub use policy::RetryPolicy;
pub use record::JobRecord;
pub use record::JobStatus;
pub use store::JobStore;
pub use store::StoreError;
pub use worker::JobHandler;
pub use worker::Registry;
pub use worker::StepOutcome;
pub use worker::worker_step;
