//! Options of the messaging service itself, for all platforms and for each.

use crate::json::{
    distinct_keys, holds_exactly, lemma_object_of_fields, object_of, text_field, viewed, Field,
    Json, JsonModel, JsonView, ObjectBuilder,
};
use vstd::prelude::*;

verus! {

/// Options that hold for every platform.
#[derive(Debug, Clone)]
pub struct FcmOptions {
    pub analytics_label: Option<String>,
}

/// Options for Android.
#[derive(Debug, Clone)]
pub struct AndroidFcmOptions {
    pub analytics_label: Option<String>,
}

/// Options for Apple devices.
#[derive(Debug, Clone)]
pub struct ApnsFcmOptions {
    pub analytics_label: Option<String>,
    pub image: Option<String>,
}

/// Options for the web.
#[derive(Debug, Clone)]
pub struct WebpushFcmOptions {
    pub analytics_label: Option<String>,
    pub link: Option<String>,
}

/// The mathematical view of [`FcmOptions`].
pub struct FcmOptionsView {
    pub analytics_label: Option<Seq<char>>,
}

/// The mathematical view of [`AndroidFcmOptions`].
pub struct AndroidFcmOptionsView {
    pub analytics_label: Option<Seq<char>>,
}

/// The mathematical view of [`ApnsFcmOptions`].
pub struct ApnsFcmOptionsView {
    pub analytics_label: Option<Seq<char>>,
    pub image: Option<Seq<char>>,
}

/// The mathematical view of [`WebpushFcmOptions`].
pub struct WebpushFcmOptionsView {
    pub analytics_label: Option<Seq<char>>,
    pub link: Option<Seq<char>>,
}

impl View for FcmOptions {
    type V = FcmOptionsView;

    open spec fn view(&self) -> FcmOptionsView {
        FcmOptionsView { analytics_label: viewed(self.analytics_label) }
    }
}

impl View for AndroidFcmOptions {
    type V = AndroidFcmOptionsView;

    open spec fn view(&self) -> AndroidFcmOptionsView {
        AndroidFcmOptionsView { analytics_label: viewed(self.analytics_label) }
    }
}

impl View for ApnsFcmOptions {
    type V = ApnsFcmOptionsView;

    open spec fn view(&self) -> ApnsFcmOptionsView {
        ApnsFcmOptionsView {
            analytics_label: viewed(self.analytics_label),
            image: viewed(self.image),
        }
    }
}

impl View for WebpushFcmOptions {
    type V = WebpushFcmOptionsView;

    open spec fn view(&self) -> WebpushFcmOptionsView {
        WebpushFcmOptionsView {
            analytics_label: viewed(self.analytics_label),
            link: viewed(self.link),
        }
    }
}

impl FcmOptionsView {
    /// The fields in the order in which they are written.
    pub open spec fn fields(self) -> Seq<Field> {
        Seq::empty().push(text_field("analytics_label"@, self.analytics_label))
    }
}

impl AndroidFcmOptionsView {
    /// The fields in the order in which they are written.
    pub open spec fn fields(self) -> Seq<Field> {
        Seq::empty().push(text_field("analytics_label"@, self.analytics_label))
    }
}

impl ApnsFcmOptionsView {
    /// The fields in the order in which they are written.
    pub open spec fn fields(self) -> Seq<Field> {
        Seq::empty().push(text_field("analytics_label"@, self.analytics_label)).push(
            text_field("image"@, self.image),
        )
    }
}

impl WebpushFcmOptionsView {
    /// The fields in the order in which they are written.
    pub open spec fn fields(self) -> Seq<Field> {
        Seq::empty().push(text_field("analytics_label"@, self.analytics_label)).push(
            text_field("link"@, self.link),
        )
    }
}

impl JsonModel for FcmOptionsView {
    open spec fn json(self) -> JsonView {
        JsonView::Object(object_of(self.fields()))
    }
}

impl JsonModel for AndroidFcmOptionsView {
    open spec fn json(self) -> JsonView {
        JsonView::Object(object_of(self.fields()))
    }
}

impl JsonModel for ApnsFcmOptionsView {
    open spec fn json(self) -> JsonView {
        JsonView::Object(object_of(self.fields()))
    }
}

impl JsonModel for WebpushFcmOptionsView {
    open spec fn json(self) -> JsonView {
        JsonView::Object(object_of(self.fields()))
    }
}

impl FcmOptions {
    /// The document that the options are sent as.
    pub fn to_json(&self) -> (doc: Json)
        ensures
            doc@ == self@.json(),
    {
        ObjectBuilder::new().text("analytics_label", &self.analytics_label).finish()
    }
}

impl AndroidFcmOptions {
    /// The document that the options are sent as.
    pub fn to_json(&self) -> (doc: Json)
        ensures
            doc@ == self@.json(),
    {
        ObjectBuilder::new().text("analytics_label", &self.analytics_label).finish()
    }
}

impl ApnsFcmOptions {
    /// The document that the options are sent as.
    pub fn to_json(&self) -> (doc: Json)
        ensures
            doc@ == self@.json(),
    {
        ObjectBuilder::new().text("analytics_label", &self.analytics_label).text(
            "image",
            &self.image,
        ).finish()
    }
}

impl WebpushFcmOptions {
    /// The document that the options are sent as.
    pub fn to_json(&self) -> (doc: Json)
        ensures
            doc@ == self@.json(),
    {
        ObjectBuilder::new().text("analytics_label", &self.analytics_label).text(
            "link",
            &self.link,
        ).finish()
    }
}

/// The options for Apple devices is sent as an object that holds exactly its present fields, each
/// under its own key; a field that is absent is left out.
pub proof fn lemma_apns_fcm_options_json(record: ApnsFcmOptionsView)
    ensures
        distinct_keys(record.fields()),
        record.json() is Object,
        holds_exactly(record.json()->Object_0, record.fields()),
{
    reveal_strlit("analytics_label");
    reveal_strlit("image");
    assert("analytics_label"@.len() == 15);
    assert("image"@.len() == 5);
    assert(distinct_keys(record.fields()));
    lemma_object_of_fields(record.fields());
}

/// The options for the web is sent as an object that holds exactly its present fields, each
/// under its own key; a field that is absent is left out.
pub proof fn lemma_webpush_fcm_options_json(record: WebpushFcmOptionsView)
    ensures
        distinct_keys(record.fields()),
        record.json() is Object,
        holds_exactly(record.json()->Object_0, record.fields()),
{
    reveal_strlit("analytics_label");
    reveal_strlit("link");
    assert("analytics_label"@.len() == 15);
    assert("link"@.len() == 4);
    assert(distinct_keys(record.fields()));
    lemma_object_of_fields(record.fields());
}

/// The options for all platforms is sent as an object that holds exactly its present fields, each
/// under its own key; a field that is absent is left out.
pub proof fn lemma_fcm_options_json(record: FcmOptionsView)
    ensures
        distinct_keys(record.fields()),
        record.json() is Object,
        holds_exactly(record.json()->Object_0, record.fields()),
{
    reveal_strlit("analytics_label");
    assert("analytics_label"@.len() == 15);
    assert(distinct_keys(record.fields()));
    lemma_object_of_fields(record.fields());
}

/// The options for Android is sent as an object that holds exactly its present fields, each
/// under its own key; a field that is absent is left out.
pub proof fn lemma_android_fcm_options_json(record: AndroidFcmOptionsView)
    ensures
        distinct_keys(record.fields()),
        record.json() is Object,
        holds_exactly(record.json()->Object_0, record.fields()),
{
    reveal_strlit("analytics_label");
    assert("analytics_label"@.len() == 15);
    assert(distinct_keys(record.fields()));
    lemma_object_of_fields(record.fields());
}

} // verus!
