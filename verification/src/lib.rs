//! A client for ForgeGraph, which manages PostgreSQL and Redis services: which
//! requests it makes, what it makes of the replies, what it keeps in the local cache,
//! and how a service is connected to.
//!
//! The library decides and computes; it sends, reads and stores nothing itself. What
//! has to be sent, read or stored is handed out as a value, and what came of it is
//! handed back.

pub mod api_error;
pub mod cache;
pub mod client;
pub mod connect;
pub mod json;
pub mod laws;
pub mod legacy;
pub mod percent;
pub mod service;
pub mod settings;
pub mod status;
pub mod text;
