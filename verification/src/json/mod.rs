//! Completion of the decoded graph.

pub mod checker;
