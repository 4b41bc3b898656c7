//! Job admission, queueing, worker execution and status broadcast for a
//! media composition and publishing pipeline.
//!
//! A submission reserves a slot in a bounded [`gate::AdmissionGate`], checks
//! that its delegated credential outlives a worst-case wait behind a full
//! queue, registers a [`cell::StatusCell`] in the [`registry::JobRegistry`],
//! and commits the job. A single worker drains jobs one at a time through
//! render and publish stages, writing monotone [`status::Status`] transitions
//! that observers read through the registry.

pub mod auth;
pub mod cell;
pub mod config;
pub mod credential;
pub mod errors;
pub mod gate;
pub mod idtext;
pub mod job;
pub mod meta;
pub mod pipeline;
pub mod shutdown;
pub mod registry;
pub mod status;
pub mod validate;
pub mod wire;
