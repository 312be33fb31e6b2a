//! Per-block operations processing for a proof-of-stake beacon chain.
//!
//! The state is mutated in place by each processor; every processor fails
//! fast on its first invalid operation and reports that operation's index.
//! The outcome of each processor, including the state it leaves behind when
//! it fails, is pinned down by a spec function over the state's view, so the
//! whole transition is a function of its inputs.
pub mod altair_deneb;
pub mod base;
pub mod common;
pub mod context;
pub mod laws;
pub mod process_operations;
pub mod types;
