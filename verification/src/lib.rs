//! Backend logic for a small desktop shim: an idempotent autostart registrar
//! that installs a login-startup script, and an acknowledgement logger that
//! appends timestamped records to an append-only log file.
//!
//! The decision logic of both procedures is verified here as step functions
//! over explicit states and events; the surrounding process performs the
//! filesystem and clock work and feeds the outcomes back in as events.

pub mod ack_log;
pub mod decimal;
pub mod errors;
pub mod logger;
pub mod registrar;
pub mod script;
