//! Decisions of the reasoning workers: agentic queries and their traces.
pub mod agentic_query;
pub mod catalogue;
pub mod cycle;
pub mod pod;
pub mod reaper;
pub mod trace;
