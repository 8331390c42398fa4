//! Periodic camera snapshot uploader.
//!
//! A camera snapshot is captured by an external still-image utility and
//! uploaded to a fixed remote endpoint by an external HTTP client, forever,
//! with a tripled back-off delay after any failure. This crate holds the
//! verified core of that loop: the configuration, the per-cycle decision
//! (which messages to log and how long to sleep next), and the exact
//! command lines handed to the two collaborator processes. The unverified
//! shell that actually spawns processes and sleeps lives outside.

pub mod commands;
pub mod config;
pub mod cycle;
pub mod decimal;
pub mod messages;
pub mod tool;
