pub mod laws;
pub mod stages;
pub mod workflow;
