//! Core of a user-authentication service: password hashing discipline,
//! bearer-token issuance and validation, a user store interface with a
//! verified in-memory implementation, and the service logic that ties
//! them together.

pub mod clock;
pub mod decimal;
pub mod duration;
pub mod errors;
pub mod jwt;
pub mod middleware;
pub mod models;
pub mod password;
pub mod service;
pub mod store;
