//! Verified decision logic of a Substrate-style node.

pub mod double_map;
pub mod hex;
pub mod message_queue;
pub mod network;
pub mod nfts;
pub mod sassafras;
pub mod scale;
