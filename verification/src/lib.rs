//! A command-line greeting: parse up to two flags, format one line.
//!
//! An invocation `greeting [--user <NAME>] [--json]` prints `Hello, <NAME>!`
//! (default name `World`), either as plain text or wrapped in a one-field
//! JSON object; `--help` prints usage instead. Parsing, formatting and JSON
//! escaping live here with their contracts; reading the process arguments
//! and writing the output stay outside the library.

pub mod args;
pub mod greet;
pub mod json;
pub mod program;
