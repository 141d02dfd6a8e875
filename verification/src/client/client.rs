//! The request that carries a message to the server.

use crate::json::{json_text, JsonModel};
use crate::message::message::Message;
use crate::utils::error::Error;
use crate::utils::text::{decimal, decimal_string};
use vstd::prelude::*;

verus! {

/// An HTTPS POST request: where it goes, its headers in order, and its body.
#[derive(Debug, Clone)]
pub struct Request {
    pub url: String,
    pub headers: Vec<(String, String)>,
    pub body: Vec<u8>,
}

/// The mathematical view of [`Request`].
pub struct RequestView {
    pub url: Seq<char>,
    pub headers: Seq<(Seq<char>, Seq<char>)>,
    pub body: Seq<u8>,
}

impl View for Request {
    type V = RequestView;

    open spec fn view(&self) -> RequestView {
        RequestView {
            url: self.url@,
            headers: Seq::new(
                self.headers@.len(),
                |i: int| (self.headers@[i].0@, self.headers@[i].1@),
            ),
            body: self.body@,
        }
    }
}

/// The address to which the messages of a project are sent.
pub open spec fn endpoint(project_id: Seq<char>) -> Seq<char> {
    "https://fcm.googleapis.com/v1/projects/"@ + project_id + "/messages:send"@
}

/// The value of the `Authorization` header for a bearer token.
pub open spec fn bearer(jwt: Seq<char>) -> Seq<char> {
    "Bearer "@ + jwt
}

/// The request for a body of JSON text: it goes to the project's endpoint
/// and has three headers and no more: the content type, the length of the
/// body in bytes, and the bearer token.
pub open spec fn framed(project_id: Seq<char>, jwt: Seq<char>, body: Seq<u8>) -> RequestView {
    RequestView {
        url: endpoint(project_id),
        headers: seq![
            ("Content-Type"@, "application/json; UTF-8"@),
            ("Content-Length"@, decimal(body.len())),
            ("Authorization"@, bearer(jwt)),
        ],
        body,
    }
}

impl Request {
    /// The request that carries `body` to the endpoint of a project under a
    /// bearer token.
    pub fn frame(project_id: &str, jwt: &str, body: Vec<u8>) -> (request: Request)
        ensures
            request@ == framed(project_id@, jwt@, body@),
    {
        let mut url = "https://fcm.googleapis.com/v1/projects/".to_owned();
        url.append(project_id);
        url.append("/messages:send");
        let mut authorization = "Bearer ".to_owned();
        authorization.append(jwt);
        let mut headers: Vec<(String, String)> = Vec::new();
        headers.push(("Content-Type".to_owned(), "application/json; UTF-8".to_owned()));
        headers.push(("Content-Length".to_owned(), decimal_string(body.len() as u128)));
        headers.push(("Authorization".to_owned(), authorization));
        let request = Request { url, headers, body };
        assert(request@.headers =~= framed(project_id@, jwt@, body@).headers);
        request
    }

    /// The request that carries a message: its body is the JSON text of the
    /// message, and it is framed for the message's project and token. Where
    /// the message cannot be written as JSON, there is no request.
    pub fn for_message(message: &Message) -> (outcome: Result<Request, Error>)
        ensures
            match json_text(message@.json()) {
                Some(text) => outcome matches Ok(request) && request@ == framed(
                    message@.project_id,
                    message@.jwt,
                    text,
                ),
                None => outcome matches Err(Error::JsonSerialize(_)),
            },
    {
        match message.to_json().encode() {
            Ok(body) => Ok(
                Request::frame(message.project_id().as_str(), message.jwt().as_str(), body),
            ),
            Err(e) => Err(e),
        }
    }
}

} // verus!
