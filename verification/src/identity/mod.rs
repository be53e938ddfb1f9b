//! Matching directory people to their accounts on community platforms.
pub mod resolution;
