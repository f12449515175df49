//! An interactive agent loop: free-text queries are routed either to a small
//! set of local tools or to a plain chat completion, by comparing embeddings
//! of the query against embeddings of each tool's description with cosine
//! similarity against a fixed threshold.
//!
//! This crate holds the decision logic: the similarity scorer, the tool
//! registry and its input validation, the router, the bounded conversation
//! history, and the session state machine. The surrounding process performs
//! the actual I/O (command channel, model endpoint, filesystem) and feeds the
//! results back in as plain values.

pub mod config;
pub mod errors;
pub mod history;
pub mod router;
pub mod session;
pub mod similarity;
pub mod tools;

pub use errors::AgentError;
