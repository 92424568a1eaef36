//! A request-relay bridge: decodes structured requests arriving over a
//! message-framed connection, dispatches each to a backend executable, and
//! produces a structured response for the same connection.
//!
//! The modules, leaf to root: [`config`] resolves the downstream addresses,
//! [`liveness`] decides the startup gate, [`router`] decodes and dispatches
//! each message, [`bridge`] enforces the success and failure semantics of
//! one backend run, [`errors`] and [`escape`] build the structured error
//! envelope, and [`jsonio`] is the trusted boundary to the JSON crate.

pub mod bridge;
pub mod config;
pub mod errors;
pub mod escape;
pub mod jsonio;
pub mod liveness;
pub mod router;
pub mod strutil;
