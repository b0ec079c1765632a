//! Library behind a one-shot command-line messenger: it resolves raw
//! command-line inputs, environment state and standard-input text into a
//! single validated send request, and translates the outcome of the one
//! outbound chat-service call into the tool's error taxonomy.

pub mod config;
pub mod dispatch;
pub mod errors;
