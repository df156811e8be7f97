//! Execution and attestation core of a compliance-scanning agent.
use vstd::prelude::*;

pub mod cli;
pub mod command;
pub mod contracts;
pub mod data;
pub mod discovery;
pub mod execution_api;
pub mod executor;
pub mod filesystem;
pub mod hashing;
pub mod k8s;
pub mod registry;
pub mod order;
pub mod scan;
pub mod signing;
pub mod tcp;
pub mod text;
pub mod values;

verus! {

} // verus!
