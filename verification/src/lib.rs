//! geist: access control policies for autonomous agent operations and the
//! processor pipeline of the edge gateway that enforces them, verified.
use vstd::prelude::*;

pub mod text;
pub mod string_match;
pub mod context;
pub mod inputs;
pub mod config;
pub mod compiler;
pub mod decision;
pub mod error;
pub mod evaluator;
pub mod access_control;
pub mod phase;
pub mod processor;
pub mod compositor;
pub mod acl;
pub mod policy_processor;
pub mod access_log;
pub mod cli;
pub mod manifest;
pub mod registry;
pub mod adapter;

verus! {

} // verus!
