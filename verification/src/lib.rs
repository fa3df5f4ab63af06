//! A commit-message linter core: structured commit messages, severity
//! levels, and configurable validation rules that report violations.

pub mod message;
pub mod result;
pub mod rule;
