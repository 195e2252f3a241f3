//! The host side of a node's sandboxed runtime: the execution-host contract
//! between the node and a pluggable engine, and the rules by which the `run`
//! command turns operator flags into configuration values.

pub mod cli;
pub mod executor;
