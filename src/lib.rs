//! Verified core of a bridge that forwards signed GitHub webhook events to a
//! Discord channel: signature checking, strict event decoding and the mapping
//! from events to chat messages.

pub mod config;
pub mod discord;
pub mod github;
pub mod handler;
pub mod json;
pub mod signature;
pub mod text;
