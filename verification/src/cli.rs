//! The `run` command: from the operator's flags to the values that
//! configure a node.

pub mod arg_enums;
pub mod error;
pub mod keyring;
pub mod params;
pub mod pattern;
pub mod run_cmd;
