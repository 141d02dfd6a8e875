//! The request that carries a message, and the reading of the answer.

pub mod client;
pub mod response;
