//! Request authentication: decides, from a request's headers, which credential
//! a caller presents and turns the outcome of checking it into either an
//! identity or a rejection with a fixed reason.

pub mod headers;
pub mod credential;
pub mod user;
pub mod auth;
pub mod laws;
