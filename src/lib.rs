//! A REST-style task and user service: entity models, an in-memory
//! persistence gateway and the request handlers that map gateway outcomes
//! to HTTP responses.
pub mod entities;
pub mod error;
pub mod gateway;
pub mod handlers;
pub mod response;
