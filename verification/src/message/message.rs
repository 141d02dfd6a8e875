//! A message with what the transport needs to send it.

use crate::json::{
    lemma_object_of_push, object_of, record_field, Field, Json, JsonModel, JsonView,
    ObjectBuilder,
};
use crate::message::body::{MessageBody, MessageBodyView};
use crate::utils::text::{strip_trailing_dots, without_trailing_dots};
use vstd::prelude::*;

verus! {

/// A complete message: the body, the project that it is sent for, and the
/// bearer token that it is sent under. Only the body is written out; the
/// project and the token are for the transport.
#[derive(Debug)]
pub struct Message {
    pub(crate) project_id: String,
    pub(crate) jwt: String,
    pub(crate) message: MessageBody,
}

/// The mathematical view of [`Message`].
pub struct MessageView {
    pub project_id: Seq<char>,
    pub jwt: Seq<char>,
    pub message: MessageBodyView,
}

impl View for Message {
    type V = MessageView;

    closed spec fn view(&self) -> MessageView {
        MessageView { project_id: self.project_id@, jwt: self.jwt@, message: self.message@ }
    }
}

impl MessageView {
    /// The one field that is written: the body, under `message`.
    pub open spec fn fields(self) -> Seq<Field> {
        Seq::empty().push(record_field("message"@, Some(self.message)))
    }
}

impl JsonModel for MessageView {
    open spec fn json(self) -> JsonView {
        JsonView::Object(object_of(self.fields()))
    }
}

impl Message {
    /// A message for a project, under a bearer token.
    pub fn new(project_id: &str, jwt: &str, body: MessageBody) -> (message: Self)
        ensures
            message@ == (MessageView { project_id: project_id@, jwt: jwt@, message: body@ }),
    {
        Message { project_id: project_id.to_owned(), jwt: jwt.to_owned(), message: body }
    }

    /// A message for a project, under the token that a credential provider
    /// handed out: the bearer token is the provider's token without the dots
    /// at its end.
    pub fn with_provider_token(project_id: &str, full_token: &str, body: MessageBody) -> (message:
        Self)
        ensures
            message@ == (MessageView {
                project_id: project_id@,
                jwt: without_trailing_dots(full_token@),
                message: body@,
            }),
    {
        Message {
            project_id: project_id.to_owned(),
            jwt: strip_trailing_dots(full_token),
            message: body,
        }
    }

    /// The project that the message is sent for.
    pub fn project_id(&self) -> (project_id: &String)
        ensures
            project_id@ == self@.project_id,
    {
        &self.project_id
    }

    /// The bearer token that the message is sent under.
    pub fn jwt(&self) -> (jwt: &String)
        ensures
            jwt@ == self@.jwt,
    {
        &self.jwt
    }

    /// The body of the message.
    pub fn body(&self) -> (body: &MessageBody)
        ensures
            body@ == self@.message,
    {
        &self.message
    }

    /// The document that the message is sent as.
    pub fn to_json(&self) -> (doc: Json)
        ensures
            doc@ == self@.json(),
    {
        ObjectBuilder::new().put("message", Some(self.message.to_json())).finish()
    }
}

/// A message is sent as an object with the one key `message`, and under it
/// the body.
pub proof fn lemma_message_json(message: MessageView)
    ensures
        message.json() == JsonView::Object(map!["message"@ => message.message.json()]),
{
    let field = record_field("message"@, Some(message.message));
    lemma_object_of_push(Seq::empty(), field);
    assert(object_of(Seq::<Field>::empty()) =~= Map::empty());
    assert(object_of(message.fields()) =~= map!["message"@ => message.message.json()]);
}

} // verus!
