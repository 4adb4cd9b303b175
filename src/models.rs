//! The data models of the blog backend.

pub mod dto;
pub mod user;
pub mod session;
pub mod post;
pub mod file_metadata;
