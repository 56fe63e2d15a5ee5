//! Finds, for the most starred repositories of a language, the contributor
//! with the largest share of contributions.
//!
//! The network work is left to the caller: this crate holds the records, the
//! reduction of a contributor list to its top contributor, the classification
//! of responses, and a pull-driven state machine that decides which request
//! comes next and what the caller yields.
pub mod github;
pub mod github_client;
pub mod stream;
pub mod request;
