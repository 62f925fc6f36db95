//! Tickets for slots: who may author a block in which slot.

pub mod calls;
pub mod tickets;
pub mod u256;
