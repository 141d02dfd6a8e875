//! A message: to whom it goes, what it holds, and under which credentials it
//! is sent.

pub mod body;
pub mod message;
pub mod receiver;
