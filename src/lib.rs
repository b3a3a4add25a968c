//! An in-memory registry of user records: a store that keeps every record's
//! identifier unique, a factory for new records, and the request handlers that
//! turn store results into replies.

pub mod error;
pub mod user;
pub mod store;
pub mod ident;
pub mod service;
pub mod handlers;
pub mod laws;
