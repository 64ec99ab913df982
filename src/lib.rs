//! Verified core of an interactive console that drives a bitcoin node over RPC.
//!
//! The library decides; the caller performs. Input lines are parsed into
//! commands, each command or timer tick becomes a job, and a job advances one
//! remote call at a time as the caller hands back the node's replies.
use vstd::prelude::*;

pub mod text;
pub mod node_format;
pub mod command;
pub mod remote;
pub mod report;
pub mod miner;
pub mod timer;
pub mod console;
