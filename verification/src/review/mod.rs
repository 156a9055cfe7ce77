//! The A4 review stage: configuration, the worker's findings manifest and
//! its validation against the reviewed diff, the diff inventory, preview
//! rendering, and the publication decisions.

pub mod coordinator;
pub mod domain;
pub mod findings;
pub mod manifest;
pub mod publisher;
pub mod worker;
