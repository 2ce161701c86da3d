//! A validation session engine: locates the entry points of a black-box
//! signing engine, decodes the result buffers it fills in, frames the
//! line-delimited messages of its subprocess transport, and sequences the
//! three protocol phases.

pub mod error;
pub mod resolve;
pub mod layout;
pub mod config;
pub mod native;
pub mod wire;
pub mod session;
