//! Deployment environment modes.
//!
//! A configuration value is tagged with one of three modes, written as the
//! lowercase tokens `dev`, `prd` and `stg`. This crate holds the mode type,
//! the conversions between a mode and its token, the predicates that decide
//! whether a piece of text is such a token, and the validator that reports
//! any other text as a field-level validation failure.

pub mod mode;
pub mod text;
pub mod validation;

pub use mode::EnvMode;
pub use validation::{validated, verify};
