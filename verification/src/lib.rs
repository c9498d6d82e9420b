//! Guarded, fail-fast removal of an application's persistent state.
//!
//! The crate holds the decisions of the workflow and nothing that touches
//! the machine: a driver performs each [`orchestrator::Action`] against the
//! operating system and hands the outcome back as an
//! [`orchestrator::Event`].

pub mod laws;
pub mod model;
pub mod orchestrator;
pub mod plan;
pub mod prober;
pub mod remover;
pub mod resolver;
pub mod scanner;
pub mod text;
