//! Match extraction for a Dota 2 statistics proxy.
//!
//! The crate turns the loosely typed JSON documents of the upstream
//! statistics API into typed records, renders them for people, and keeps the
//! small amount of state the service needs.  Network and server plumbing is
//! left to the caller: the library describes the requests to send and
//! interprets the answers.

pub mod client;
pub mod config;
pub mod decode;
pub mod error;
pub mod json;
pub mod lookup;
pub mod performance;
pub mod service;
pub mod text;

pub use crate::error::AppError;
