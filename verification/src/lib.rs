//! Compliance-state tracking for a FIPS-validated cryptographic module.
//!
//! The library keeps a process-wide picture of whether the module is still
//! operating in an approved, healthy state: a poison latch that is set once
//! any approved-mode call is detected running a non-approved path, a health
//! latch fed by the module's asynchronous failure callback, a combinator that
//! classifies each wrapped call from the module's service-indicator counter,
//! and a status query that folds both latches into a single verdict.
//! A companion module computes the compile plan used to build the native
//! module from a per-target manifest.

pub mod cc_builder;
pub mod error;
pub mod fips;
