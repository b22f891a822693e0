//! Request handling rules of a small account-and-city web service: request
//! validation, configuration parsing, password and session handling, and the
//! decision logic of every HTTP handler, each stated as a contract.

pub mod error;
pub mod json;
pub mod config;
pub mod validation;
pub mod model;
pub mod password;
pub mod session;
pub mod flow;
pub mod laws;
