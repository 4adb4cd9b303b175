//! The bodies and queries that the HTTP handlers accept.

pub mod posts;
pub mod users;
