//! The settings of a message for each platform.

pub mod android;
pub mod apns;
pub mod fcm;
pub mod webpush;
