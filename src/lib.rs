//! A WebSocket connection registry with room-scoped broadcast, and the plain
//! data models of a small blog backend.

mod clock;
mod ids;
pub mod time;
pub mod number;
pub mod text;
pub mod registry;
pub mod protocol;
pub mod websocket;
pub mod slug;
pub mod config;
pub mod models;
pub mod handlers;
pub mod greeting;
