pub mod attribution;
pub mod batch;
pub mod contribution;
pub mod enrichment_queue;
pub mod progress;
