//! A client for the ZeroGravity data availability (DA) layer and the rules of the workload
//! that tests it.

pub mod blob;
pub mod config;
pub mod confirm;
pub mod da;
pub mod disperse;
pub mod disperser;
pub mod gather;
pub mod laws;
pub mod metrics;
pub mod outside;
pub mod promises;
pub mod retrieve;
pub mod run;
pub mod workload;
