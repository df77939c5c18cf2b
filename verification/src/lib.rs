//! Device sync engine: device-code authentication state machine, device and
//! file discovery helpers, a dedup cache over a durable key-value store, and
//! the chunked-upload coordinator with its event model.
//!
//! All I/O (HTTP, filesystem, USB enumeration) lives outside this crate; the
//! library holds the decisions, data structures and arithmetic, each with a
//! verified contract.

pub mod api;
pub mod auth;
pub mod camera_finder;
pub mod chunks;
pub mod config;
pub mod device;
pub mod error;
pub mod ipc;
pub mod poll;
pub mod store;
pub mod strutil;
pub mod upload;
