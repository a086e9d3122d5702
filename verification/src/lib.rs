//! Relay engine and membership registry of a chat mirror spanning many
//! communities.
//!
//! The registry lives in an external store and messages travel through an
//! external gateway. Every operation of this library is therefore a small
//! machine: it names the next request to make, takes the answer, and decides
//! what follows. The caller performs the requests.

pub mod admin;
pub mod config;
pub mod defaults;
pub mod fanout;
pub mod laws;
pub mod notify;
pub mod registry;
pub mod relay;
pub mod resolve;
pub mod store;
pub mod text;
pub mod types;
pub mod world;
