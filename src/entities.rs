//! Stored records, one module per entity.
pub mod tasks;
pub mod users;
