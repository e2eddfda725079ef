//! A gateway that exposes one object-storage bucket through file-style HTTP verbs.
//!
//! The library holds the decisions of the gateway: how a request path becomes an object
//! key, which headers travel as object metadata, how a backend failure becomes a protocol
//! error, and in which order the backend is called for each verb. It performs no I/O.
//! A handler is a state machine: it names the next thing to do (call the backend, read the
//! request body, or respond), and is stepped with what came back.

pub mod backend;
pub mod env;
pub mod error;
pub mod key;
pub mod metadata;
pub mod protocol;
pub mod routes;
pub mod run;
pub mod stream_utils;
pub mod transfer;
pub mod upload;
pub mod upload_run;
