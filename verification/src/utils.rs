//! Text rendering, the string map for data payloads and the error type.

pub mod error;
pub mod map;
pub mod text;
