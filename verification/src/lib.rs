//! Verified core of the Symphony agent orchestrator: the rules that decide
//! what gets dispatched, retried, escalated, reviewed and published.

pub mod digest;
pub mod domain;
pub mod github;
pub mod json;
pub mod orchestrator;
pub mod pi_agent;
pub mod pi_turn;
pub mod publication_recovery;
pub mod review;
pub mod specification;
pub mod text;
