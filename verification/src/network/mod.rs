//! Networking.

pub mod announce_cache;
pub mod config;
pub mod known_blocks;
pub mod primitives;
pub mod protocol;
pub mod protocol_calls;
pub mod protocol_laws;
pub mod protocol_model;
pub mod rep;
pub mod sync_calls;
pub mod sync_helper;
pub mod sync_laws;
pub mod sync_loop;
pub mod sync_model;
pub mod sync_response_calls;
pub mod sync_responses;
pub mod sync_types;
