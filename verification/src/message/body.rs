//! The body of a message.

use crate::json::{
    distinct_keys, holds_exactly, lemma_object_of_fields, object_of, record_field, text_field,
    viewed, Field, Json, JsonModel, JsonView, ObjectBuilder,
};
use crate::message::receiver::{Receiver, ReceiverView};
use crate::notification::notification::{Notification, NotificationView};
use crate::settings::android::{AndroidConfig, AndroidConfigView};
use crate::settings::apns::{ApnsConfig, ApnsConfigView};
use crate::settings::fcm::{FcmOptions, FcmOptionsView};
use crate::settings::webpush::{WebpushConfig, WebpushConfigView};
use crate::utils::error::Error;
use crate::utils::map::{map_field, FirebaseMap, IntoFirebaseMap};
use vstd::prelude::*;

verus! {

/// The body of a message: its one receiver, and what it holds for all
/// platforms and for each. Every field but the receiver is optional.
#[derive(Debug)]
pub struct MessageBody {
    name: Option<String>,
    receiver: Receiver,
    data: Option<FirebaseMap>,
    notification: Option<Notification>,
    android: Option<AndroidConfig>,
    apns: Option<ApnsConfig>,
    webpush: Option<WebpushConfig>,
    fcm_options: Option<FcmOptions>,
}

/// The mathematical view of [`MessageBody`].
pub struct MessageBodyView {
    pub name: Option<Seq<char>>,
    pub receiver: ReceiverView,
    pub data: Option<Map<Seq<char>, Seq<char>>>,
    pub notification: Option<NotificationView>,
    pub android: Option<AndroidConfigView>,
    pub apns: Option<ApnsConfigView>,
    pub webpush: Option<WebpushConfigView>,
    pub fcm_options: Option<FcmOptionsView>,
}

impl View for MessageBody {
    type V = MessageBodyView;

    closed spec fn view(&self) -> MessageBodyView {
        MessageBodyView {
            name: viewed(self.name),
            receiver: self.receiver@,
            data: viewed(self.data),
            notification: viewed(self.notification),
            android: viewed(self.android),
            apns: viewed(self.apns),
            webpush: viewed(self.webpush),
            fcm_options: viewed(self.fcm_options),
        }
    }
}

impl MessageBodyView {
    /// The body for a receiver with nothing else set.
    pub open spec fn empty(receiver: ReceiverView) -> Self {
        MessageBodyView {
            name: None,
            receiver: receiver,
            data: None,
            notification: None,
            android: None,
            apns: None,
            webpush: None,
            fcm_options: None,
        }
    }

    /// The fields in the order in which they are written.
    pub open spec fn fields(self) -> Seq<Field> {
        Seq::empty()
            .push(text_field("name"@, self.name))
            .push(self.receiver.field())
            .push(map_field("data"@, self.data))
            .push(record_field("notification"@, self.notification))
            .push(record_field("android"@, self.android))
            .push(record_field("apns"@, self.apns))
            .push(record_field("webpush"@, self.webpush))
            .push(record_field("fcm_options"@, self.fcm_options))
    }
}

impl JsonModel for MessageBodyView {
    open spec fn json(self) -> JsonView {
        JsonView::Object(object_of(self.fields()))
    }
}

impl MessageBody {
    /// A body for this receiver, with nothing else set.
    pub fn new(receiver: Receiver) -> (made: Self)
        ensures
            made@ == MessageBodyView::empty(receiver@),
    {
        MessageBody {
            name: None,
            receiver,
            data: None,
            notification: None,
            android: None,
            apns: None,
            webpush: None,
            fcm_options: None,
        }
    }

    /// Sets the name of the message.
    pub fn name(&mut self, name: &str) -> (ret: &mut Self)
        ensures
            ret@ == (MessageBodyView {
                name: Some(name@),
                ..old(self)@
            }),
            *final(self) == *final(ret),
    {
        self.name = Some(name.to_owned());
        self
    }

    /// Sets the data of the message: the map that `data` is laid out as.
    /// This never fails.
    pub fn data(&mut self, data: impl IntoFirebaseMap) -> (outcome: Result<
        &mut Self,
        Error,
    >)
        ensures
            outcome is Ok,
            outcome->Ok_0@ == (MessageBodyView {
                data: Some(data.projection()),
                ..old(self)@
            }),
            *final(self) == *final(outcome->Ok_0),
    {
        self.data = Some(data.as_map());
        Ok(self)
    }

    /// Sets the notification for all platforms.
    pub fn notification(&mut self, notification: Notification) -> (ret: &mut Self)
        ensures
            ret@ == (MessageBodyView {
                notification: Some(notification@),
                ..old(self)@
            }),
            *final(self) == *final(ret),
    {
        self.notification = Some(notification);
        self
    }

    /// Sets the settings for Android.
    pub fn android(&mut self, android: AndroidConfig) -> (ret: &mut Self)
        ensures
            ret@ == (MessageBodyView {
                android: Some(android@),
                ..old(self)@
            }),
            *final(self) == *final(ret),
    {
        self.android = Some(android);
        self
    }

    /// Sets the settings for Apple devices.
    pub fn apns(&mut self, apns: ApnsConfig) -> (ret: &mut Self)
        ensures
            ret@ == (MessageBodyView {
                apns: Some(apns@),
                ..old(self)@
            }),
            *final(self) == *final(ret),
    {
        self.apns = Some(apns);
        self
    }

    /// Sets the settings for the web.
    pub fn webpush(&mut self, webpush: WebpushConfig) -> (ret: &mut Self)
        ensures
            ret@ == (MessageBodyView {
                webpush: Some(webpush@),
                ..old(self)@
            }),
            *final(self) == *final(ret),
    {
        self.webpush = Some(webpush);
        self
    }

    /// Sets the options of the service for all platforms.
    pub fn fcm_options(&mut self, fcm_options: FcmOptions) -> (ret: &mut Self)
        ensures
            ret@ == (MessageBodyView {
                fcm_options: Some(fcm_options@),
                ..old(self)@
            }),
            *final(self) == *final(ret),
    {
        self.fcm_options = Some(fcm_options);
        self
    }

    /// The document that the body is sent as.
    pub fn to_json(&self) -> (doc: Json)
        ensures
            doc@ == self@.json(),
    {
        let receiver = Json::Text(self.receiver.payload().clone());
        let data = match &self.data {
            Some(x) => Some(x.to_json()),
            None => None,
        };
        let notification = match &self.notification {
            Some(x) => Some(x.to_json()),
            None => None,
        };
        let android = match &self.android {
            Some(x) => Some(x.to_json()),
            None => None,
        };
        let apns = match &self.apns {
            Some(x) => Some(x.to_json()),
            None => None,
        };
        let webpush = match &self.webpush {
            Some(x) => Some(x.to_json()),
            None => None,
        };
        let fcm_options = match &self.fcm_options {
            Some(x) => Some(x.to_json()),
            None => None,
        };
        ObjectBuilder::new()
            .text("name", &self.name)
            .put(self.receiver.tag(), Some(receiver))
            .put("data", data)
            .put("notification", notification)
            .put("android", android)
            .put("apns", apns)
            .put("webpush", webpush)
            .put("fcm_options", fcm_options)
            .finish()
    }
}

/// The ten keys that a body can be written with, by their lengths and, where
/// two are equally long, by a letter in which they differ: so no two of them
/// are the same string.
pub proof fn lemma_body_keys()
    ensures
        "name"@.len() == 4,
        "token"@.len() == 5,
        "topic"@.len() == 5,
        "condition"@.len() == 9,
        "data"@.len() == 4,
        "notification"@.len() == 12,
        "android"@.len() == 7,
        "apns"@.len() == 4,
        "webpush"@.len() == 7,
        "fcm_options"@.len() == 11,
        "name"@[0] == 'n',
        "data"@[0] == 'd',
        "apns"@[0] == 'a',
        "token"@[2] == 'k',
        "topic"@[2] == 'p',
        "android"@[0] == 'a',
        "webpush"@[0] == 'w',
{
    reveal_strlit("name");
    reveal_strlit("token");
    reveal_strlit("topic");
    reveal_strlit("condition");
    reveal_strlit("data");
    reveal_strlit("notification");
    reveal_strlit("android");
    reveal_strlit("apns");
    reveal_strlit("webpush");
    reveal_strlit("fcm_options");
}

/// A body is sent as an object that holds exactly its present fields, each
/// under its own key; a field that is absent is left out.
pub proof fn lemma_message_body_json(body: MessageBodyView)
    ensures
        distinct_keys(body.fields()),
        body.json() is Object,
        holds_exactly(body.json()->Object_0, body.fields()),
{
    lemma_body_keys();
    assert(distinct_keys(body.fields()));
    lemma_object_of_fields(body.fields());
}

/// A body is sent as an object that holds exactly one of the keys `token`,
/// `topic` and `condition`: the one of its receiver's kind, and under it the
/// receiver's string.
pub proof fn lemma_exactly_one_receiver(body: MessageBodyView)
    ensures
        body.json() is Object,
        body.json()->Object_0.contains_key(body.receiver.tag()),
        body.json()->Object_0[body.receiver.tag()] == JsonView::Text(body.receiver.payload()),
        body.json()->Object_0.contains_key("token"@) <==> body.receiver is Token,
        body.json()->Object_0.contains_key("topic"@) <==> body.receiver is Topic,
        body.json()->Object_0.contains_key("condition"@) <==> body.receiver is Condition,
{
    let fields = body.fields();
    lemma_message_body_json(body);
    assert(fields[1] == body.receiver.field());
    assert(object_of(fields).contains_key(fields[1].0));
    assert(object_of(fields)[fields[1].0] == fields[1].1->0);
    lemma_body_keys();
    assert forall|key: Seq<char>|
        (key == "token"@ || key == "topic"@ || key == "condition"@) && object_of(
            fields,
        ).contains_key(key) implies key == body.receiver.tag() by {
        let i = choose|i: int| 0 <= i < fields.len() && fields[i].0 == key && fields[i].1 is Some;
        assert(fields[0].0 == "name"@);
        assert(fields[2].0 == "data"@);
        assert(fields[3].0 == "notification"@);
        assert(fields[4].0 == "android"@);
        assert(fields[5].0 == "apns"@);
        assert(fields[6].0 == "webpush"@);
        assert(fields[7].0 == "fcm_options"@);
    }
}

} // verus!
