//! Block-authoring and sealing core of a chain node.
//!
//! The miner assembles candidate blocks from pooled transactions atop the
//! current best chain tip and drives them through either an engine-internal
//! sealing flow or an external work solicitation/submission flow.

pub mod types;
pub mod options;
pub mod block;
pub mod work_queue;
pub mod pool;
pub mod engine;
pub mod accounts;
pub mod chain;
pub mod assembly;
pub mod miner;
pub mod laws;
