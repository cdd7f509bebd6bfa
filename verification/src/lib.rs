//! semverguard: workspace orchestration logic for cargo-semver-checks, verified with Verus.
use vstd::prelude::*;

pub mod text;
pub mod model;
pub mod error;
pub mod classification;
pub mod paths;
pub mod globs;
pub mod runner;
pub mod policy;
pub mod order;
pub mod receipt;
pub mod artifacts;
pub mod findings;
pub mod waivers;
pub mod assemble;
pub mod capability;
pub mod comment;
pub mod sarif;
pub mod receipt_source;
pub mod explain;
pub mod operations;
pub mod config;
pub mod pipeline;
pub mod cli;
pub mod render;
pub mod laws;
pub mod promote;

verus! {

} // verus!
