//! Latency bookkeeping for a benchmark client of a rate-limit service.
//!
//! The client issues one rate-limit check after another for a fixed time,
//! measures each round trip and sorts the answers by outcome. This crate holds
//! the decisions of that client: how an answer is classified, which histograms
//! a sample enters, when a run ends, when the running summary is due, and what
//! the final report shows. Reading the clock, talking to the service and
//! printing are left to the caller.

pub mod bench;
pub mod chart;
pub mod config;
pub mod histogram;
pub mod outcome;
pub mod recorder;
pub mod report;
pub mod text;
