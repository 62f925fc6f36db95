//! Means to try out a message queue: messages, pages of them, weights and processors.

pub mod calls;
pub mod page;
pub mod processor;
pub mod weight;
