//! The errors of the library.

use crate::client::response::{FcmError, FcmErrorView};
use vstd::prelude::*;

verus! {

/// All the ways in which composing, sending or answering a message can fail.
/// Each kind but the server's holds the text of what went wrong underneath.
#[derive(Debug, Clone)]
pub enum Error {
    /// The transport failed before a well-formed answer was there.
    Request(String),
    /// A document could not be written as JSON, or an answer could not be
    /// read as one of the two documented shapes.
    JsonSerialize(String),
    /// The server answered with an error.
    FcmError(FcmError),
    /// An instant could not be rendered as RFC 3339.
    TimeFormatError(String),
}

/// The mathematical view of [`Error`].
pub enum ErrorView {
    Request(Seq<char>),
    JsonSerialize(Seq<char>),
    FcmError(FcmErrorView),
    TimeFormatError(Seq<char>),
}

impl View for Error {
    type V = ErrorView;

    open spec fn view(&self) -> ErrorView {
        match self {
            Error::Request(reason) => ErrorView::Request(reason@),
            Error::JsonSerialize(reason) => ErrorView::JsonSerialize(reason@),
            Error::FcmError(e) => ErrorView::FcmError(e@),
            Error::TimeFormatError(reason) => ErrorView::TimeFormatError(reason@),
        }
    }
}

impl ErrorView {
    /// The text of the error: that of what went wrong underneath.
    pub open spec fn text(self) -> Seq<char> {
        match self {
            ErrorView::Request(reason) => reason,
            ErrorView::JsonSerialize(reason) => reason,
            ErrorView::FcmError(e) => e.text(),
            ErrorView::TimeFormatError(reason) => reason,
        }
    }
}

impl Error {
    /// The text of the error.
    pub fn to_string(&self) -> (text: String)
        ensures
            text@ == self@.text(),
    {
        match self {
            Error::Request(reason) => reason.clone(),
            Error::JsonSerialize(reason) => reason.clone(),
            Error::FcmError(e) => e.to_string(),
            Error::TimeFormatError(reason) => reason.clone(),
        }
    }
}

} // verus!
