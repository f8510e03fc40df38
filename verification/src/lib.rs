//! Fast local security scanning: rule checks over parsed syntax trees,
//! intraprocedural taint tracking, Semgrep-compatible rule helpers and
//! the pure parts of the file scanner, each with a verified contract.

pub mod types;
pub mod text;
pub mod pattern;
pub mod glob;
pub mod tree;
pub mod engine;
pub mod rules;

pub use types::{Finding, Language, Severity};
