//! Verified orchestration logic for bootstrapping a local test network's
//! initial ledger state: keypair provisioning plans, genesis-tool flag
//! construction, and ledger post-processing decisions.
//!
//! All filesystem and process work is left to the embedding program; this
//! library computes the exact commands to run, validates inputs, and
//! interprets the outcomes.

use vstd::prelude::*;

pub mod errors;
pub mod genesis;
pub mod ledger_helper;
pub mod text;

verus! {

/// A single external-tool invocation: a program name and its ordered
/// argument vector.
#[derive(Debug)]
pub struct CommandSpec {
    pub program: String,
    pub args: Vec<String>,
}

} // verus!
