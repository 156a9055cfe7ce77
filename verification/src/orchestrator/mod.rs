//! The orchestrator's rules: which issues are dispatched and in what order,
//! how retries are scheduled and fired, how escalations are answered, and
//! how agent events are named and classified.

pub mod issue;
pub mod order;
pub mod retry;
pub mod escalation;
pub mod events;
pub mod rate_limit;
pub mod runtime;
pub mod session;
pub mod tick;
pub mod turns;
pub mod pr_check;
pub mod summary;
pub mod shared_context;
pub mod steer;
pub mod reconcile;
pub mod hosts;
