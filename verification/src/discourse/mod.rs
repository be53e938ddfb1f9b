//! The Discourse forum source: the API's data and the adapter's decisions.
pub mod client;
pub mod source;
