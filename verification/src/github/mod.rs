pub mod types;
pub mod client;
pub mod etag;
pub mod graphql;
pub mod contributions;
pub mod diffs;
pub mod repos;
pub mod source;
pub mod team_sync;
