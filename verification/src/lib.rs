//! An embeddable key-value store whose namespaces hold entries that expire.
//!
//! The store is a set of named namespaces, each a mapping from text keys to values with
//! an optional time to live. It is reached in three ways: by sessions of a wire protocol,
//! by a web service that is itself a client of that protocol, and by scripts in an
//! extension sandbox. All three go through the same narrow gateway.
//!
//! This crate is the logic of all that, and none of the machinery. It reads no clock,
//! opens no socket, takes no lock and runs no script: every operation is handed the time
//! as a number of seconds, takes the store by `&mut`, and where the outside world has to
//! act in between, says what is to be done next and is told what came of it.
//!
//! - [`value`]: the values that can be stored.
//! - [`namespace`]: one namespace, and the rule that an expired entry is never shown.
//! - [`manager`]: all namespaces, by name.
//! - [`host`]: values as callers write them, and the conversion in both directions.
//! - [`plugin::db`]: the access gateway.
//! - [`protocol`]: the session of a connection and the commands of the wire protocol.
//! - [`plugin`]: what an extension is given, and what a call into it comes to.
//! - [`plugin::chunk`]: the chunk that hands a command to a script, as data only.
//! - [`service`]: how the web service comes up, its routes and its answers to failures.
//! - [`error`]: the ways in which an operation can fail.
//! - [`assoc`]: keyed items in a vector, read as a mapping.

pub mod assoc;
pub mod error;
pub mod host;
pub mod manager;
pub mod namespace;
pub mod plugin;
pub mod protocol;
pub mod service;
pub mod value;
