//! The server's answer: the name that it gave the message, or its error.

use crate::json::{json_parse, number_unsigned, unsigned_of, Json, JsonView};
use crate::utils::error::Error;
use crate::utils::text::{decimal, push_decimal};
use vstd::prelude::*;

verus! {

/// The error that the server reports.
#[derive(Debug, Clone)]
pub struct FcmError {
    pub code: u16,
    pub message: String,
    pub status: String,
}

/// The mathematical view of [`FcmError`].
pub struct FcmErrorView {
    pub code: u16,
    pub message: Seq<char>,
    pub status: Seq<char>,
}

impl View for FcmError {
    type V = FcmErrorView;

    open spec fn view(&self) -> FcmErrorView {
        FcmErrorView { code: self.code, message: self.message@, status: self.status@ }
    }
}

impl FcmErrorView {
    /// The text of the error: the status, the code in brackets, a colon and
    /// the message.
    pub open spec fn text(self) -> Seq<char> {
        self.status + " ("@ + decimal(self.code as nat) + "): "@ + self.message
    }
}

/// The answer of the server: the name of the message where it was accepted,
/// the error where it was not.
#[derive(Debug, Clone)]
pub enum FcmResponse {
    Success(String),
    Error(FcmError),
}

/// The mathematical view of [`FcmResponse`].
pub enum FcmResponseView {
    Success(Seq<char>),
    Error(FcmErrorView),
}

impl View for FcmResponse {
    type V = FcmResponseView;

    open spec fn view(&self) -> FcmResponseView {
        match self {
            FcmResponse::Success(name) => FcmResponseView::Success(name@),
            FcmResponse::Error(e) => FcmResponseView::Error(e@),
        }
    }
}

/// The document is an object whose only key is `key`.
pub open spec fn sole_key(doc: JsonView, key: Seq<char>) -> bool {
    doc is Object && doc->Object_0.dom() =~= set![key]
}

/// The error that a document holds: one only where the document is an
/// object that has, under `code`, an unsigned integer of 16 bits and, under
/// `message` and `status`, strings. Other keys are passed over.
pub open spec fn error_of(doc: JsonView) -> Option<FcmErrorView> {
    if doc is Object && doc->Object_0.contains_key("code"@) && doc->Object_0.contains_key(
        "message"@,
    ) && doc->Object_0.contains_key("status"@) {
        let fields = doc->Object_0;
        match (unsigned_of(fields["code"@]), fields["message"@], fields["status"@]) {
            (Some(code), JsonView::Text(message), JsonView::Text(status)) => if code <= u16::MAX {
                Some(FcmErrorView { code: code as u16, message, status })
            } else {
                None
            },
            _ => None,
        }
    } else {
        None
    }
}

/// The answer that a document holds: one only where the document is an
/// object with exactly one key, which is `name` with a string under it, or
/// `error` with an error under it.
pub open spec fn response_of(doc: JsonView) -> Option<FcmResponseView> {
    if sole_key(doc, "name"@) {
        match doc->Object_0["name"@] {
            JsonView::Text(name) => Some(FcmResponseView::Success(name)),
            _ => None,
        }
    } else if sole_key(doc, "error"@) {
        match error_of(doc->Object_0["error"@]) {
            Some(e) => Some(FcmResponseView::Error(e)),
            None => None,
        }
    } else {
        None
    }
}

/// What is handed to the sender for an answer: the name of the message, or
/// the server's error.
pub open spec fn outcome_of(response: FcmResponseView) -> Result<Seq<char>, FcmErrorView> {
    match response {
        FcmResponseView::Success(name) => Ok(name),
        FcmResponseView::Error(e) => Err(e),
    }
}

/// The view of an optional answer.
pub open spec fn viewed_response(response: Option<FcmResponse>) -> Option<FcmResponseView> {
    match response {
        Some(r) => Some(r@),
        None => None,
    }
}

/// The view of an optional error.
pub open spec fn viewed_error(error: Option<FcmError>) -> Option<FcmErrorView> {
    match error {
        Some(e) => Some(e@),
        None => None,
    }
}

impl FcmError {
    /// The text of the error.
    pub fn to_string(&self) -> (text: String)
        ensures
            text@ == self@.text(),
    {
        let mut text = self.status.clone();
        text.append(" (");
        push_decimal(&mut text, self.code as u128);
        text.append("): ");
        text.append(self.message.as_str());
        text
    }

    /// The error that a document holds.
    pub fn from_json(doc: &Json) -> (found: Option<FcmError>)
        ensures
            viewed_error(found) == error_of(doc@),
    {
        let code = match doc.get("code") {
            Some(value) => match value.as_unsigned() {
                Some(code) => code,
                None => {
                    return None;
                },
            },
            None => {
                return None;
            },
        };
        let message = match doc.get("message") {
            Some(Json::Text(message)) => message.clone(),
            _ => {
                return None;
            },
        };
        let status = match doc.get("status") {
            Some(Json::Text(status)) => status.clone(),
            _ => {
                return None;
            },
        };
        if code > 65535 {
            return None;
        }
        Some(FcmError { code: code as u16, message, status })
    }
}

impl FcmResponse {
    /// The answer that a document holds.
    pub fn from_json(doc: &Json) -> (found: Option<FcmResponse>)
        ensures
            viewed_response(found) == response_of(doc@),
    {
        match doc.single_entry() {
            Some((key, value)) => {
                assert(doc@->Object_0.dom() =~= set![key@]);
                assert(doc@->Object_0[key@] == value@);
                proof {
                    reveal_strlit("name");
                    reveal_strlit("error");
                    assert("name"@.len() == 4);
                    assert("error"@.len() == 5);
                    if key@ != "name"@ {
                        assert(set![key@].contains(key@));
                        assert(!sole_key(doc@, "name"@));
                    }
                    if key@ != "error"@ {
                        assert(set![key@].contains(key@));
                        assert(!sole_key(doc@, "error"@));
                    }
                }
                if *key == "name".to_owned() {
                    match value {
                        Json::Text(name) => Some(FcmResponse::Success(name.clone())),
                        _ => None,
                    }
                } else if *key == "error".to_owned() {
                    match FcmError::from_json(value) {
                        Some(e) => Some(FcmResponse::Error(e)),
                        None => None,
                    }
                } else {
                    None
                }
            },
            None => {
                proof {
                    if doc@ is Object {
                        let fields = doc@->Object_0;
                        if fields.dom() =~= set!["name"@] {
                            assert(fields =~= map!["name"@ => fields["name"@]]);
                        }
                        if fields.dom() =~= set!["error"@] {
                            assert(fields =~= map!["error"@ => fields["error"@]]);
                        }
                    }
                }
                None
            },
        }
    }

    /// What is handed to the sender for the answer: the name of the message,
    /// or the server's error as an error of the library.
    pub fn into_result(self) -> (outcome: Result<String, Error>)
        ensures
            match outcome_of(self@) {
                Ok(name) => outcome matches Ok(s) && s@ == name,
                Err(e) => outcome matches Err(Error::FcmError(x)) && x@ == e,
            },
    {
        match self {
            FcmResponse::Success(name) => Ok(name),
            FcmResponse::Error(e) => Err(Error::FcmError(e)),
        }
    }
}

/// What the body of the server's answer says of a sent message.
pub open spec fn answer_of(body: Seq<u8>) -> Option<FcmResponseView> {
    match json_parse(body) {
        Some(doc) => response_of(doc),
        None => None,
    }
}

/// Reads the body of the server's answer: the name of the message where the
/// server accepted it, the server's error where it reports one, and a
/// serialization error where the body is no JSON or none of the two shapes.
pub fn read_response(body: &[u8]) -> (outcome: Result<String, Error>)
    ensures
        match answer_of(body@) {
            Some(FcmResponseView::Success(name)) => outcome matches Ok(s) && s@ == name,
            Some(FcmResponseView::Error(e)) => outcome matches Err(Error::FcmError(x)) && x@ == e,
            None => outcome matches Err(Error::JsonSerialize(_)),
        },
{
    match Json::parse(body) {
        Ok(doc) => match FcmResponse::from_json(&doc) {
            Some(response) => response.into_result(),
            None => Err(
                Error::JsonSerialize(
                    "expected an object with the single key `name` or `error`".to_owned(),
                ),
            ),
        },
        Err(e) => Err(e),
    }
}

/// A document of the shape `{"name": X}` holds the answer that the message
/// was accepted under the name `X`.
pub proof fn lemma_name_is_success(name: Seq<char>)
    ensures
        response_of(JsonView::Object(map!["name"@ => JsonView::Text(name)])) == Some(
            FcmResponseView::Success(name),
        ),
{
    let fields = map!["name"@ => JsonView::Text(name)];
    assert(fields.dom() =~= set!["name"@]);
}

/// A document of the shape `{"error": {"code": C, "message": M, "status":
/// S}}`, with `C` an unsigned integer of 16 bits, holds the server's error
/// with these three values.
pub proof fn lemma_error_is_error(
    number: serde_json::Number,
    code: u16,
    message: Seq<char>,
    status: Seq<char>,
)
    requires
        number_unsigned(number) == Some(code as u64),
    ensures
        response_of(
            JsonView::Object(
                map!["error"@ => JsonView::Object(
                    map![
                        "code"@ => JsonView::Number(number),
                        "message"@ => JsonView::Text(message),
                        "status"@ => JsonView::Text(status),
                    ],
                )],
            ),
        ) == Some(FcmResponseView::Error(FcmErrorView { code, message, status })),
{
    reveal_strlit("name");
    reveal_strlit("error");
    reveal_strlit("code");
    reveal_strlit("message");
    reveal_strlit("status");
    assert("name"@.len() == 4);
    assert("error"@.len() == 5);
    assert("code"@.len() == 4);
    assert("message"@.len() == 7);
    assert("status"@.len() == 6);
    let inner = map![
        "code"@ => JsonView::Number(number),
        "message"@ => JsonView::Text(message),
        "status"@ => JsonView::Text(status),
    ];
    let fields = map!["error"@ => JsonView::Object(inner)];
    assert(fields.dom() =~= set!["error"@]);
    assert(fields.dom().contains("error"@));
    assert(!(fields.dom() =~= set!["name"@]));
    assert(inner["code"@] == JsonView::Number(number));
    assert(inner["message"@] == JsonView::Text(message));
    assert(inner["status"@] == JsonView::Text(status));
}

} // verus!
