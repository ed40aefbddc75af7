//! Request handlers: decode, make one gateway call, shape the response.
pub mod tasks;
pub mod users;
