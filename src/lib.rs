//! Schema compiler for command-line argument contracts.
//!
//! The library turns declarative schemas (annotated struct fields, tagged
//! unions of subcommands and closed value enumerations) into argument
//! descriptors and the decisions that extract typed values from a match
//! result. Every function states its behaviour as a contract over
//! mathematical models and is proved by Verus.

pub mod arg_enum;
pub mod args;
pub mod common;
pub mod docs;
pub mod error;
pub mod extract;
pub mod field;
pub mod naming;
pub mod rename;
pub mod shape;
pub mod subcommand;
