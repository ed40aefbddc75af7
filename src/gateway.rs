//! In-memory persistence gateways, one per entity. Identifiers start at 1,
//! grow by one on each insert and are never handed out twice, also after a
//! deletion.
pub mod tasks;

pub mod users;
