//! The notification that all platforms share, and the small values that the
//! Android notification is made of.

use crate::json::{
    distinct_keys, holds_exactly, lemma_object_of_fields, object_of, record_field, text_field,
    viewed, Field, Json, JsonModel, JsonView, ObjectBuilder,
};
use crate::notification::color::{Color, ColorView};
use crate::utils::text::{decimal, duration_string, duration_text};
use vstd::prelude::*;

verus! {

/// How urgently a notification asks for attention.
#[derive(Debug, Clone, Copy)]
pub enum NotificationPriority {
    PriorityUnspecified,
    PriorityMin,
    PriorityLow,
    PriorityDefault,
    PriorityHigh,
    PriorityMax,
}

/// Who may see a notification on a locked screen.
#[derive(Debug, Clone, Copy)]
pub enum Visibility {
    VisibilityUnspecified,
    Private,
    Public,
    Secret,
}

impl NotificationPriority {
    /// The word that the priority is written as: its name in snake case.
    pub open spec fn token(self) -> Seq<char> {
        match self {
            NotificationPriority::PriorityUnspecified => "priority_unspecified"@,
            NotificationPriority::PriorityMin => "priority_min"@,
            NotificationPriority::PriorityLow => "priority_low"@,
            NotificationPriority::PriorityDefault => "priority_default"@,
            NotificationPriority::PriorityHigh => "priority_high"@,
            NotificationPriority::PriorityMax => "priority_max"@,
        }
    }

    /// The word that the priority is written as.
    pub fn as_str(&self) -> (word: &'static str)
        ensures
            word@ == self.token(),
    {
        match self {
            NotificationPriority::PriorityUnspecified => "priority_unspecified",
            NotificationPriority::PriorityMin => "priority_min",
            NotificationPriority::PriorityLow => "priority_low",
            NotificationPriority::PriorityDefault => "priority_default",
            NotificationPriority::PriorityHigh => "priority_high",
            NotificationPriority::PriorityMax => "priority_max",
        }
    }
}

impl Visibility {
    /// The word that the visibility is written as: its name in snake case.
    pub open spec fn token(self) -> Seq<char> {
        match self {
            Visibility::VisibilityUnspecified => "visibility_unspecified"@,
            Visibility::Private => "private"@,
            Visibility::Public => "public"@,
            Visibility::Secret => "secret"@,
        }
    }

    /// The word that the visibility is written as.
    pub fn as_str(&self) -> (word: &'static str)
        ensures
            word@ == self.token(),
    {
        match self {
            Visibility::VisibilityUnspecified => "visibility_unspecified",
            Visibility::Private => "private",
            Visibility::Public => "public",
            Visibility::Secret => "secret",
        }
    }
}

/// How the notification light of a device blinks. Durations are counts of
/// seconds, kept in the form `<N>s`.
#[derive(Debug, Clone)]
pub struct LightSettings {
    color: Option<Color>,
    light_on_duration: Option<String>,
    light_off_duration: Option<String>,
}

/// The mathematical view of [`LightSettings`].
pub struct LightSettingsView {
    pub color: Option<ColorView>,
    pub light_on_duration: Option<Seq<char>>,
    pub light_off_duration: Option<Seq<char>>,
}

impl View for LightSettings {
    type V = LightSettingsView;

    closed spec fn view(&self) -> LightSettingsView {
        LightSettingsView {
            color: viewed(self.color),
            light_on_duration: viewed(self.light_on_duration),
            light_off_duration: viewed(self.light_off_duration),
        }
    }
}

impl LightSettingsView {
    /// The settings with nothing set.
    pub open spec fn empty() -> Self {
        LightSettingsView { color: None, light_on_duration: None, light_off_duration: None }
    }

    /// The fields in the order in which they are written.
    pub open spec fn fields(self) -> Seq<Field> {
        Seq::empty().push(record_field("color"@, self.color)).push(
            text_field("light_on_duration"@, self.light_on_duration),
        ).push(text_field("light_off_duration"@, self.light_off_duration))
    }
}

impl JsonModel for LightSettingsView {
    open spec fn json(self) -> JsonView {
        JsonView::Object(object_of(self.fields()))
    }
}

impl LightSettings {
    /// Settings with nothing set.
    pub fn new() -> (settings: Self)
        ensures
            settings@ == LightSettingsView::empty(),
    {
        LightSettings { color: None, light_on_duration: None, light_off_duration: None }
    }

    /// Sets the colour of the light.
    pub fn color(&mut self, color: Color) -> (ret: &mut Self)
        ensures
            ret@ == (LightSettingsView { color: Some(color@), ..old(self)@ }),
            *final(self) == *final(ret),
    {
        self.color = Some(color);
        self
    }

    /// Sets for how many seconds the light is on.
    pub fn light_on_duration(&mut self, seconds: usize) -> (ret: &mut Self)
        ensures
            ret@ == (LightSettingsView {
                light_on_duration: Some(duration_text(seconds as nat)),
                ..old(self)@
            }),
            *final(self) == *final(ret),
    {
        self.light_on_duration = Some(duration_string(seconds));
        self
    }

    /// Sets for how many seconds the light is off.
    pub fn light_off_duration(&mut self, seconds: usize) -> (ret: &mut Self)
        ensures
            ret@ == (LightSettingsView {
                light_off_duration: Some(duration_text(seconds as nat)),
                ..old(self)@
            }),
            *final(self) == *final(ret),
    {
        self.light_off_duration = Some(duration_string(seconds));
        self
    }

    /// The document that the settings are sent as.
    pub fn to_json(&self) -> (doc: Json)
        ensures
            doc@ == self@.json(),
    {
        let color = match &self.color {
            Some(c) => Some(c.to_json()),
            None => None,
        };
        ObjectBuilder::new().put("color", color).text(
            "light_on_duration",
            &self.light_on_duration,
        ).text("light_off_duration", &self.light_off_duration).finish()
    }
}

impl Default for LightSettings {
    fn default() -> (settings: Self)
        ensures
            settings@ == LightSettingsView::empty(),
    {
        LightSettings::new()
    }
}

/// The notification that is shown on every platform.
#[derive(Debug, Clone)]
pub struct Notification {
    pub title: Option<String>,
    pub body: Option<String>,
    pub image: Option<String>,
}

/// The mathematical view of [`Notification`].
pub struct NotificationView {
    pub title: Option<Seq<char>>,
    pub body: Option<Seq<char>>,
    pub image: Option<Seq<char>>,
}

impl View for Notification {
    type V = NotificationView;

    open spec fn view(&self) -> NotificationView {
        NotificationView {
            title: viewed(self.title),
            body: viewed(self.body),
            image: viewed(self.image),
        }
    }
}

impl NotificationView {
    /// The fields in the order in which they are written.
    pub open spec fn fields(self) -> Seq<Field> {
        Seq::empty().push(text_field("title"@, self.title)).push(
            text_field("body"@, self.body),
        ).push(text_field("image"@, self.image))
    }
}

impl JsonModel for NotificationView {
    open spec fn json(self) -> JsonView {
        JsonView::Object(object_of(self.fields()))
    }
}

impl Notification {
    /// A notification with nothing set.
    pub fn new() -> (notification: Self)
        ensures
            notification@ == (NotificationView { title: None, body: None, image: None }),
    {
        Notification { title: None, body: None, image: None }
    }

    /// The notification with this title.
    pub fn with_title(self, title: &str) -> (notification: Self)
        ensures
            notification@ == (NotificationView { title: Some(title@), ..self@ }),
    {
        let mut notification = self;
        notification.title = Some(title.to_owned());
        notification
    }

    /// The notification with this body.
    pub fn with_body(self, body: &str) -> (notification: Self)
        ensures
            notification@ == (NotificationView { body: Some(body@), ..self@ }),
    {
        let mut notification = self;
        notification.body = Some(body.to_owned());
        notification
    }

    /// The notification with this image.
    pub fn with_image(self, image: &str) -> (notification: Self)
        ensures
            notification@ == (NotificationView { image: Some(image@), ..self@ }),
    {
        let mut notification = self;
        notification.image = Some(image.to_owned());
        notification
    }

    /// The document that the notification is sent as.
    pub fn to_json(&self) -> (doc: Json)
        ensures
            doc@ == self@.json(),
    {
        ObjectBuilder::new().text("title", &self.title).text("body", &self.body).text(
            "image",
            &self.image,
        ).finish()
    }
}

/// The light settings is sent as an object that holds exactly its present fields, each
/// under its own key; a field that is absent is left out.
pub proof fn lemma_light_settings_json(record: LightSettingsView)
    ensures
        distinct_keys(record.fields()),
        record.json() is Object,
        holds_exactly(record.json()->Object_0, record.fields()),
{
    reveal_strlit("color");
    reveal_strlit("light_on_duration");
    reveal_strlit("light_off_duration");
    assert("color"@.len() == 5);
    assert("light_on_duration"@.len() == 17);
    assert("light_off_duration"@.len() == 18);
    assert(distinct_keys(record.fields()));
    lemma_object_of_fields(record.fields());
}

/// A notification is sent as an object that holds exactly its present fields, each
/// under its own key; a field that is absent is left out.
pub proof fn lemma_notification_json(record: NotificationView)
    ensures
        distinct_keys(record.fields()),
        record.json() is Object,
        holds_exactly(record.json()->Object_0, record.fields()),
{
    reveal_strlit("title");
    reveal_strlit("body");
    reveal_strlit("image");
    assert("title"@.len() == 5);
    assert("body"@.len() == 4);
    assert("image"@.len() == 5);
    assert("title"@[0] == 't');
    assert("image"@[0] == 'i');
    assert(distinct_keys(record.fields()));
    lemma_object_of_fields(record.fields());
}

/// Light settings whose durations were set to counts of seconds are sent
/// with the texts `<N>s` under `light_on_duration` and `light_off_duration`,
/// `N` being the decimal count.
pub proof fn lemma_light_durations_json(settings: LightSettingsView, on: nat, off: nat)
    requires
        settings.light_on_duration == Some(duration_text(on)),
        settings.light_off_duration == Some(duration_text(off)),
    ensures
        settings.json() is Object,
        settings.json()->Object_0.contains_key("light_on_duration"@),
        settings.json()->Object_0["light_on_duration"@] == JsonView::Text(decimal(on).push('s')),
        settings.json()->Object_0.contains_key("light_off_duration"@),
        settings.json()->Object_0["light_off_duration"@] == JsonView::Text(
            decimal(off).push('s'),
        ),
{
    lemma_light_settings_json(settings);
    let fields = settings.fields();
    assert(fields[1] == text_field("light_on_duration"@, settings.light_on_duration));
    assert(fields[2] == text_field("light_off_duration"@, settings.light_off_duration));
    assert(object_of(fields).contains_key(fields[1].0));
    assert(object_of(fields).contains_key(fields[2].0));
}

} // verus!
