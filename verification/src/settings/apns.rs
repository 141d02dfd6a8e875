//! The settings of a message for Apple devices.

use crate::json::{
    distinct_keys, holds_exactly, lemma_object_of_fields, object_of, record_field, viewed, Field,
    Json, JsonModel, JsonView, ObjectBuilder,
};
use crate::settings::fcm::{ApnsFcmOptions, ApnsFcmOptionsView};
use crate::utils::error::Error;
use crate::utils::map::{map_field, FirebaseMap, IntoFirebaseMap};
use vstd::prelude::*;

verus! {

/// All settings of a message for Apple devices. Every field is optional.
#[derive(Debug, Clone)]
pub struct ApnsConfig {
    headers: Option<FirebaseMap>,
    payload: Option<FirebaseMap>,
    fcm_options: Option<ApnsFcmOptions>,
}

/// The mathematical view of [`ApnsConfig`].
pub struct ApnsConfigView {
    pub headers: Option<Map<Seq<char>, Seq<char>>>,
    pub payload: Option<Map<Seq<char>, Seq<char>>>,
    pub fcm_options: Option<ApnsFcmOptionsView>,
}

impl View for ApnsConfig {
    type V = ApnsConfigView;

    closed spec fn view(&self) -> ApnsConfigView {
        ApnsConfigView {
            headers: viewed(self.headers),
            payload: viewed(self.payload),
            fcm_options: viewed(self.fcm_options),
        }
    }
}

impl ApnsConfigView {
    /// The settings with nothing set.
    pub open spec fn empty() -> Self {
        ApnsConfigView {
            headers: None,
            payload: None,
            fcm_options: None,
        }
    }

    /// The fields in the order in which they are written.
    pub open spec fn fields(self) -> Seq<Field> {
        Seq::empty()
            .push(map_field("headers"@, self.headers))
            .push(map_field("payload"@, self.payload))
            .push(record_field("fcm_options"@, self.fcm_options))
    }
}

impl JsonModel for ApnsConfigView {
    open spec fn json(self) -> JsonView {
        JsonView::Object(object_of(self.fields()))
    }
}

impl ApnsConfig {
    /// Settings with nothing set.
    pub fn new() -> (made: Self)
        ensures
            made@ == ApnsConfigView::empty(),
    {
        ApnsConfig {
            headers: None,
            payload: None,
            fcm_options: None,
        }
    }

    /// Sets the request headers of the Apple push service: the map that `headers` is laid out as.
    /// This never fails.
    pub fn headers(&mut self, headers: impl IntoFirebaseMap) -> (outcome: Result<
        &mut Self,
        Error,
    >)
        ensures
            outcome is Ok,
            outcome->Ok_0@ == (ApnsConfigView {
                headers: Some(headers.projection()),
                ..old(self)@
            }),
            *final(self) == *final(outcome->Ok_0),
    {
        self.headers = Some(headers.as_map());
        Ok(self)
    }

    /// Sets the payload of the Apple push service: the map that `payload` is laid out as.
    /// This never fails.
    pub fn payload(&mut self, payload: impl IntoFirebaseMap) -> (outcome: Result<
        &mut Self,
        Error,
    >)
        ensures
            outcome is Ok,
            outcome->Ok_0@ == (ApnsConfigView {
                payload: Some(payload.projection()),
                ..old(self)@
            }),
            *final(self) == *final(outcome->Ok_0),
    {
        self.payload = Some(payload.as_map());
        Ok(self)
    }

    /// Sets the options of the service for Apple devices.
    pub fn fcm_options(&mut self, fcm_options: ApnsFcmOptions) -> (ret: &mut Self)
        ensures
            ret@ == (ApnsConfigView {
                fcm_options: Some(fcm_options@),
                ..old(self)@
            }),
            *final(self) == *final(ret),
    {
        self.fcm_options = Some(fcm_options);
        self
    }

    /// The document that the settings are sent as.
    pub fn to_json(&self) -> (doc: Json)
        ensures
            doc@ == self@.json(),
    {
        let headers = match &self.headers {
            Some(x) => Some(x.to_json()),
            None => None,
        };
        let payload = match &self.payload {
            Some(x) => Some(x.to_json()),
            None => None,
        };
        let fcm_options = match &self.fcm_options {
            Some(x) => Some(x.to_json()),
            None => None,
        };
        ObjectBuilder::new()
            .put("headers", headers)
            .put("payload", payload)
            .put("fcm_options", fcm_options)
            .finish()
    }
}

impl Default for ApnsConfig {
    fn default() -> (made: Self)
        ensures
            made@ == ApnsConfigView::empty(),
    {
        ApnsConfig::new()
    }
}

/// The settings for Apple devices are sent as an object that holds exactly their present fields,
/// each under its own key; a field that is absent is left out.
pub proof fn lemma_apns_config_json(record: ApnsConfigView)
    ensures
        distinct_keys(record.fields()),
        record.json() is Object,
        holds_exactly(record.json()->Object_0, record.fields()),
{
    reveal_strlit("headers");
    reveal_strlit("payload");
    reveal_strlit("fcm_options");
    assert("headers"@.len() == 7);
    assert("payload"@.len() == 7);
    assert("fcm_options"@.len() == 11);
    assert("headers"@[0] == 'h');
    assert("payload"@[0] == 'p');
    assert(distinct_keys(record.fields()));
    lemma_object_of_fields(record.fields());
}

} // verus!
