//! Firebase Cloud Messaging (HTTP v1) messages: a typed message model, the
//! JSON document each message is sent as, the request that carries it and the
//! reading of the server's answer.
//!
//! A message is composed from a [`Receiver`], a [`MessageBody`] and the
//! settings of each platform, and is wrapped into a [`Message`] with the
//! project and the bearer token. [`Request::for_message`] gives the one HTTPS
//! request that sends it, and [`read_response`] reads what the server said.
//! Performing the request is left to the caller.

pub mod client;
pub mod json;
pub mod message;
pub mod notification;
pub mod settings;
pub mod utils;

pub use client::client::Request;
pub use client::response::{read_response, FcmError, FcmResponse};
pub use json::{Json, ObjectBuilder};
pub use message::body::MessageBody;
pub use message::message::Message;
pub use message::receiver::Receiver;
pub use notification::android::AndroidNotification;
pub use notification::color::Color;
pub use notification::notification::{LightSettings, Notification, NotificationPriority, Visibility};
pub use settings::android::{AndroidConfig, AndroidMessagePriority};
pub use settings::apns::ApnsConfig;
pub use settings::fcm::{AndroidFcmOptions, ApnsFcmOptions, FcmOptions, WebpushFcmOptions};
pub use settings::webpush::WebpushConfig;
pub use utils::error::Error;
pub use utils::map::{FirebaseMap, FirebaseMapValue, IntoFirebaseMap};
