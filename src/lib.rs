//! Emergency backup triggered by a mouse gesture.
//!
//! The pointer is sampled at a fixed interval. Touching the exact upper-left corner and,
//! within one tracking window, the other three corners (with a pixel tolerance) is the
//! first command; a confirming instance then waits for the same gesture again, and on it
//! the backup runs. This crate holds the verified decisions: corner tests, the bounded
//! history, the per-tick state machine, configuration checks, settings updates and the
//! plan and log record of a backup. Sampling, sleeping, files and notifications belong
//! to the caller.

pub mod errors;
pub mod position;
pub mod corner;
pub mod history;
pub mod gesture;
pub mod config;
pub mod settings;
pub mod form;
pub mod tracker;
pub mod backup;
