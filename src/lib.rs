//! A small newsletter service: a liveness probe and a subscription endpoint
//! that decodes a url-encoded form and stores a name/email pair.
//!
//! The library decides every response; running the server and writing to
//! the database is left to the caller.
pub mod form;
pub mod http;
pub mod startup;
pub mod subscriptions;
