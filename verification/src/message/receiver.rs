//! To whom a message goes.

use crate::json::{Field, JsonView};
use vstd::prelude::*;

verus! {

/// The receiver of a message: a single device by its registration token, all
/// devices subscribed to a topic, or all devices that meet a condition on
/// topics.
#[derive(Debug, Clone)]
pub enum Receiver {
    Token(String),
    Topic(String),
    Condition(String),
}

/// The mathematical view of [`Receiver`].
pub enum ReceiverView {
    Token(Seq<char>),
    Topic(Seq<char>),
    Condition(Seq<char>),
}

impl View for Receiver {
    type V = ReceiverView;

    open spec fn view(&self) -> ReceiverView {
        match self {
            Receiver::Token(s) => ReceiverView::Token(s@),
            Receiver::Topic(s) => ReceiverView::Topic(s@),
            Receiver::Condition(s) => ReceiverView::Condition(s@),
        }
    }
}

impl ReceiverView {
    /// The key under which the receiver is written: its kind in lower case.
    pub open spec fn tag(self) -> Seq<char> {
        match self {
            ReceiverView::Token(_) => "token"@,
            ReceiverView::Topic(_) => "topic"@,
            ReceiverView::Condition(_) => "condition"@,
        }
    }

    /// The string that the receiver carries.
    pub open spec fn payload(self) -> Seq<char> {
        match self {
            ReceiverView::Token(s) => s,
            ReceiverView::Topic(s) => s,
            ReceiverView::Condition(s) => s,
        }
    }

    /// The receiver as a field of the message that it belongs to: always
    /// present, its kind the key and its string the value.
    pub open spec fn field(self) -> Field {
        (self.tag(), Some(JsonView::Text(self.payload())))
    }
}

impl Receiver {
    /// A single device, by its registration token.
    pub fn token(token: &str) -> (receiver: Self)
        ensures
            receiver@ == ReceiverView::Token(token@),
    {
        Receiver::Token(token.to_owned())
    }

    /// All devices subscribed to a topic.
    pub fn topic(topic: &str) -> (receiver: Self)
        ensures
            receiver@ == ReceiverView::Topic(topic@),
    {
        Receiver::Topic(topic.to_owned())
    }

    /// All devices that meet a condition on topics.
    pub fn condition(condition: &str) -> (receiver: Self)
        ensures
            receiver@ == ReceiverView::Condition(condition@),
    {
        Receiver::Condition(condition.to_owned())
    }

    /// The key under which the receiver is written.
    pub fn tag(&self) -> (tag: &'static str)
        ensures
            tag@ == self@.tag(),
    {
        match self {
            Receiver::Token(_) => "token",
            Receiver::Topic(_) => "topic",
            Receiver::Condition(_) => "condition",
        }
    }

    /// The string that the receiver carries.
    pub fn payload(&self) -> (payload: &String)
        ensures
            payload@ == self@.payload(),
    {
        match self {
            Receiver::Token(s) => s,
            Receiver::Topic(s) => s,
            Receiver::Condition(s) => s,
        }
    }
}

} // verus!
