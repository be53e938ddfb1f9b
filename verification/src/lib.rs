use vstd::prelude::*;

pub mod discourse;
pub mod errors;
pub mod github;
pub mod identity;
pub mod ingestion;
pub mod metrics;
pub mod model;
pub mod pipeline;
pub mod reasoning;
pub mod seqs;
pub mod step_registry;
pub mod text;

verus! {

} // verus!
