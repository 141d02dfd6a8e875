//! The settings of a message for the web.

use crate::json::{
    distinct_keys, document_field, holds_exactly, lemma_object_of_fields, object_of,
    record_field, viewed, Field, Json, JsonModel, JsonView, ObjectBuilder,
};
use crate::settings::fcm::{WebpushFcmOptions, WebpushFcmOptionsView};
use crate::utils::error::Error;
use crate::utils::map::{map_field, FirebaseMap, IntoFirebaseMap};
use vstd::prelude::*;

verus! {

/// All settings of a message for the web. Every field is optional.
#[derive(Debug, Clone)]
pub struct WebpushConfig {
    headers: Option<FirebaseMap>,
    data: Option<FirebaseMap>,
    notification: Option<Json>,
    fcm_options: Option<WebpushFcmOptions>,
}

/// The mathematical view of [`WebpushConfig`].
pub struct WebpushConfigView {
    pub headers: Option<Map<Seq<char>, Seq<char>>>,
    pub data: Option<Map<Seq<char>, Seq<char>>>,
    pub notification: Option<JsonView>,
    pub fcm_options: Option<WebpushFcmOptionsView>,
}

impl View for WebpushConfig {
    type V = WebpushConfigView;

    closed spec fn view(&self) -> WebpushConfigView {
        WebpushConfigView {
            headers: viewed(self.headers),
            data: viewed(self.data),
            notification: viewed(self.notification),
            fcm_options: viewed(self.fcm_options),
        }
    }
}

impl WebpushConfigView {
    /// The settings with nothing set.
    pub open spec fn empty() -> Self {
        WebpushConfigView {
            headers: None,
            data: None,
            notification: None,
            fcm_options: None,
        }
    }

    /// The fields in the order in which they are written.
    pub open spec fn fields(self) -> Seq<Field> {
        Seq::empty()
            .push(map_field("headers"@, self.headers))
            .push(map_field("data"@, self.data))
            .push(document_field("notification"@, self.notification))
            .push(record_field("fcm_options"@, self.fcm_options))
    }
}

impl JsonModel for WebpushConfigView {
    open spec fn json(self) -> JsonView {
        JsonView::Object(object_of(self.fields()))
    }
}

impl WebpushConfig {
    /// Settings with nothing set.
    pub fn new() -> (made: Self)
        ensures
            made@ == WebpushConfigView::empty(),
    {
        WebpushConfig {
            headers: None,
            data: None,
            notification: None,
            fcm_options: None,
        }
    }

    /// Sets the headers of the web push protocol: the map that `headers` is laid out as.
    /// This never fails.
    pub fn headers(&mut self, headers: impl IntoFirebaseMap) -> (outcome: Result<
        &mut Self,
        Error,
    >)
        ensures
            outcome is Ok,
            outcome->Ok_0@ == (WebpushConfigView {
                headers: Some(headers.projection()),
                ..old(self)@
            }),
            *final(self) == *final(outcome->Ok_0),
    {
        self.headers = Some(headers.as_map());
        Ok(self)
    }

    /// Sets the data of the message for the web: the map that `data` is laid out as.
    /// This never fails.
    pub fn data(&mut self, data: impl IntoFirebaseMap) -> (outcome: Result<
        &mut Self,
        Error,
    >)
        ensures
            outcome is Ok,
            outcome->Ok_0@ == (WebpushConfigView {
                data: Some(data.projection()),
                ..old(self)@
            }),
            *final(self) == *final(outcome->Ok_0),
    {
        self.data = Some(data.as_map());
        Ok(self)
    }

    /// Sets the web notification, a JSON document of any shape.
    /// This never fails.
    pub fn notification(&mut self, notification: Json) -> (outcome: Result<
        &mut Self,
        Error,
    >)
        ensures
            outcome is Ok,
            outcome->Ok_0@ == (WebpushConfigView {
                notification: Some(notification@),
                ..old(self)@
            }),
            *final(self) == *final(outcome->Ok_0),
    {
        self.notification = Some(notification);
        Ok(self)
    }

    /// Sets the options of the service for the web.
    pub fn fcm_options(&mut self, fcm_options: WebpushFcmOptions) -> (ret: &mut Self)
        ensures
            ret@ == (WebpushConfigView {
                fcm_options: Some(fcm_options@),
                ..old(self)@
            }),
            *final(self) == *final(ret),
    {
        self.fcm_options = Some(fcm_options);
        self
    }

    /// The document that the settings are sent as.
    pub fn to_json(&self) -> (doc: Json)
        ensures
            doc@ == self@.json(),
    {
        let headers = match &self.headers {
            Some(x) => Some(x.to_json()),
            None => None,
        };
        let data = match &self.data {
            Some(x) => Some(x.to_json()),
            None => None,
        };
        let notification = match &self.notification {
            Some(x) => Some(x.duplicate()),
            None => None,
        };
        let fcm_options = match &self.fcm_options {
            Some(x) => Some(x.to_json()),
            None => None,
        };
        ObjectBuilder::new()
            .put("headers", headers)
            .put("data", data)
            .put("notification", notification)
            .put("fcm_options", fcm_options)
            .finish()
    }
}

impl Default for WebpushConfig {
    fn default() -> (made: Self)
        ensures
            made@ == WebpushConfigView::empty(),
    {
        WebpushConfig::new()
    }
}

/// The settings for the web are sent as an object that holds exactly their present fields,
/// each under its own key; a field that is absent is left out.
pub proof fn lemma_webpush_config_json(record: WebpushConfigView)
    ensures
        distinct_keys(record.fields()),
        record.json() is Object,
        holds_exactly(record.json()->Object_0, record.fields()),
{
    reveal_strlit("headers");
    reveal_strlit("data");
    reveal_strlit("notification");
    reveal_strlit("fcm_options");
    assert("headers"@.len() == 7);
    assert("data"@.len() == 4);
    assert("notification"@.len() == 12);
    assert("fcm_options"@.len() == 11);
    assert(distinct_keys(record.fields()));
    lemma_object_of_fields(record.fields());
}

} // verus!
