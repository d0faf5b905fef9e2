//! Error model, request checking and login rules of an authentication service.
//!
//! The HTTP server, the database access and the JSON encoding live in the
//! companion binary; this crate holds the decisions they rely on.

pub mod errors;
pub mod validation;
pub mod requests;
pub mod session;
pub mod users;
pub mod usecases;
pub mod laws;
