//! Kernel build scheduler: the verified core of a single-machine Linux kernel
//! build service (job model, identifiers, configuration, request policy,
//! build-script generation and container invocation).

pub mod audit;
pub mod cli;
pub mod config;
pub mod control;
pub mod daemon;
pub mod db;
pub mod error;
pub mod executor;
pub mod ids;
pub mod mcp;
pub mod model;
pub mod paths;
pub mod policy;
pub mod runtime;
pub mod scheduler;
pub mod text;
