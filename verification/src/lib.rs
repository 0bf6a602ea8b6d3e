//! A verified model of a blocking task offload subsystem for a small
//! task-list application.
//!
//! A single-threaded, non-blocking request layer must never perform blocking
//! storage work itself.  Instead it builds a typed unit of work, submits it
//! through a dispatcher facade into a bounded mailbox, and a fixed pool of
//! workers executes each unit against a bounded pool of storage connections,
//! resolving a per-submission completion slot exactly once.
//!
//! The modules, leaf first:
//! - [`messages`]: the unit-of-work contract (one variant per operation),
//!   task values, and the failure taxonomy.
//! - [`pool`]: the fixed-capacity resource pool of storage connections.
//! - [`mailbox`]: the bounded FIFO queue between submitters and workers.
//! - [`store`]: the storage state the domain operations act on.
//! - [`dispatch`]: the dispatcher facade tying mailbox, pool, store and
//!   completion slots together.
//! - [`handlers`]: the request-layer decisions (validation, method
//!   reinterpretation) that build and submit units of work.
//! - [`session`]: flash messages handed back to the request layer.

pub mod dispatch;
pub mod handlers;
pub mod mailbox;
pub mod messages;
pub mod pool;
pub mod session;
pub mod store;
