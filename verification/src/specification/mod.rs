//! The A2 specification stage: the spec artifact and its review findings,
//! their validation, the human decision table, the owned spec comment, and
//! the draft/review/revise pipeline.

pub mod artifact;
pub mod comment;
pub mod coordinator;
pub mod decision;
pub mod domain;
pub mod pipeline;
pub mod revision;
pub mod publication;
