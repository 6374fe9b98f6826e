//! A static check of PostgreSQL schema migrations.
//!
//! Some statements are unsafe to run against a large table that is in use:
//! they hold an exclusive lock for long, rewrite the table, or break the
//! application that is running. This library reads the SQL of a migration
//! and reports each such statement, with the reason and a safer way.
//!
//! - [`checks`] holds the rules, one detector each, and the [`checks::Registry`]
//!   that runs the active rules over the statements.
//! - [`parser`] turns SQL text into statements, reads the `safety-assured`
//!   directives that take lines out of checking, and recognises a few safe
//!   statements that the SQL parser rejects.
//! - [`checks::location`] finds the source line of a parsed statement.
//! - [`safety_checker`] puts these together for one SQL text.
//!
//! The executable parts are verified with Verus against the specification
//! functions that stand beside them. What is taken on trust is marked
//! `external_body` or declared as an opaque type: the SQL parser, regular
//! expressions, and two Unicode functions of the standard library.

pub mod ast;
pub mod checks;
pub mod config;
pub mod error;
pub mod parser;
pub mod pattern;
pub mod safety_checker;
pub mod text;
pub mod violation;

pub use config::{Config, ConfigError};
pub use safety_checker::SafetyChecker;
pub use violation::Violation;
