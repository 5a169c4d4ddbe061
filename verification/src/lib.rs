//! A verified transaction-submission pipeline for a NEAR "greeting" contract.
//!
//! The library covers the logic of one submission: resolving a network
//! configuration, validating credentials, building the unsigned transaction
//! record, serializing it canonically, hashing and signing it, and
//! classifying the node's terminal answer. All network I/O is left to the
//! caller, which drives the pipeline step by step.

pub mod account;
pub mod compare;
pub mod config;
pub mod credentials;
pub mod encode;
pub mod errors;
pub mod greeting;
pub mod json;
pub mod pipeline;
pub mod sign;
pub mod transaction;
pub mod view;

pub use account::valid_account_id;
pub use account::check_account_id;
