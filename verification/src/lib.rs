//! Execution coordination for a rollup node: deriving payload attributes and
//! building the blocks they describe through an execution engine.

pub mod actor;
pub mod attributes;
pub mod build_task;
pub mod config;
pub mod derivation;
pub mod engine_api;
pub mod engine_state;
pub mod forkchoice;
pub mod primitives;
pub mod versions;
