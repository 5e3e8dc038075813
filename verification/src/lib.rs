//! Bootstrap and lifecycle rules of a bridge that serves a local
//! communication daemon over a TLS-secured network interface.
//!
//! The library holds the decisions: how an answer typed at the terminal is
//! read, which question the first-run dialogue asks next, how a configuration
//! is read from and written to its JSON document, and in which order the
//! process starts and stops its two units of work. The program around it
//! performs the actions that these functions hand out.

pub mod text;
pub mod json;
pub mod config;
pub mod wizard;
pub mod lifecycle;
