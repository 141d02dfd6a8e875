//! What a notification shows.

pub mod android;
pub mod color;
pub mod notification;
