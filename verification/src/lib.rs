//! The bootstrap shell of a mosaic node.
//!
//! A mosaic node observes two blockchains, an origin chain and an auxiliary
//! chain. This crate holds what the node decides before it observes anything:
//! which endpoints it talks to, given the variables of its process, and what
//! one diagnostic pass against the origin chain asks for and reports.

pub mod environment;
pub mod config;
pub mod runner;

pub use config::Config;
pub use environment::Environment;
pub use runner::run;
pub use runner::Event;
pub use runner::RunError;
pub use runner::Runner;
