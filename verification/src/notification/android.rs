//! The notification as Android shows it.

use crate::json::{
    distinct_keys, flag_field, holds_exactly, integer_number, lemma_object_of_fields, object_of,
    opt_text_list, record_field, text_field, text_list, text_list_field, viewed, Field, Json,
    JsonModel, JsonView, ObjectBuilder,
};
use crate::notification::notification::{
    LightSettings, LightSettingsView, NotificationPriority, Visibility,
};
use crate::utils::error::Error;
use vstd::prelude::*;

verus! {

/// An instant with its offset from UTC, as the `time` crate holds it.
#[verifier::external_type_specification]
#[verifier::external_body]
pub struct OutsideInstant(time::OffsetDateTime);

/// What the Android notification shows and does. Every field is optional.
#[derive(Debug, Clone)]
pub struct AndroidNotification {
    title: Option<String>,
    body: Option<String>,
    icon: Option<String>,
    color: Option<String>,
    sound: Option<String>,
    tag: Option<String>,
    click_action: Option<String>,
    body_loc_key: Option<String>,
    body_loc_args: Option<Vec<String>>,
    title_loc_key: Option<String>,
    title_loc_args: Option<Vec<String>>,
    channel_id: Option<String>,
    ticker: Option<String>,
    sticky: Option<bool>,
    event_time: Option<String>,
    local_only: Option<bool>,
    notification_priority: Option<NotificationPriority>,
    default_sound: Option<bool>,
    default_vibrate_timings: Option<bool>,
    default_light_settings: Option<bool>,
    vibrate_timings: Option<Vec<String>>,
    visibility: Option<Visibility>,
    notification_count: Option<i32>,
    light_settings: Option<LightSettings>,
    image: Option<String>,
}

/// The mathematical view of [`AndroidNotification`].
pub struct AndroidNotificationView {
    pub title: Option<Seq<char>>,
    pub body: Option<Seq<char>>,
    pub icon: Option<Seq<char>>,
    pub color: Option<Seq<char>>,
    pub sound: Option<Seq<char>>,
    pub tag: Option<Seq<char>>,
    pub click_action: Option<Seq<char>>,
    pub body_loc_key: Option<Seq<char>>,
    pub body_loc_args: Option<Seq<Seq<char>>>,
    pub title_loc_key: Option<Seq<char>>,
    pub title_loc_args: Option<Seq<Seq<char>>>,
    pub channel_id: Option<Seq<char>>,
    pub ticker: Option<Seq<char>>,
    pub sticky: Option<bool>,
    pub event_time: Option<Seq<char>>,
    pub local_only: Option<bool>,
    pub notification_priority: Option<NotificationPriority>,
    pub default_sound: Option<bool>,
    pub default_vibrate_timings: Option<bool>,
    pub default_light_settings: Option<bool>,
    pub vibrate_timings: Option<Seq<Seq<char>>>,
    pub visibility: Option<Visibility>,
    pub notification_count: Option<i32>,
    pub light_settings: Option<LightSettingsView>,
    pub image: Option<Seq<char>>,
}

impl View for AndroidNotification {
    type V = AndroidNotificationView;

    closed spec fn view(&self) -> AndroidNotificationView {
        AndroidNotificationView {
            title: viewed(self.title),
            body: viewed(self.body),
            icon: viewed(self.icon),
            color: viewed(self.color),
            sound: viewed(self.sound),
            tag: viewed(self.tag),
            click_action: viewed(self.click_action),
            body_loc_key: viewed(self.body_loc_key),
            body_loc_args: opt_text_list(self.body_loc_args),
            title_loc_key: viewed(self.title_loc_key),
            title_loc_args: opt_text_list(self.title_loc_args),
            channel_id: viewed(self.channel_id),
            ticker: viewed(self.ticker),
            sticky: self.sticky,
            event_time: viewed(self.event_time),
            local_only: self.local_only,
            notification_priority: self.notification_priority,
            default_sound: self.default_sound,
            default_vibrate_timings: self.default_vibrate_timings,
            default_light_settings: self.default_light_settings,
            vibrate_timings: opt_text_list(self.vibrate_timings),
            visibility: self.visibility,
            notification_count: self.notification_count,
            light_settings: viewed(self.light_settings),
            image: viewed(self.image),
        }
    }
}

/// An optional priority as a field: the priority's word.
pub open spec fn priority_field(key: Seq<char>, value: Option<NotificationPriority>) -> Field {
    text_field(
        key,
        match value {
            Some(p) => Some(p.token()),
            None => None,
        },
    )
}

/// An optional visibility as a field: the visibility's word.
pub open spec fn visibility_field(key: Seq<char>, value: Option<Visibility>) -> Field {
    text_field(
        key,
        match value {
            Some(v) => Some(v.token()),
            None => None,
        },
    )
}

/// An optional count as a field: the count as a JSON number.
pub open spec fn count_field(key: Seq<char>, value: Option<i32>) -> Field {
    (
        key,
        match value {
            Some(c) => Some(JsonView::Number(integer_number(c as i64))),
            None => None,
        },
    )
}

impl AndroidNotificationView {
    /// The notification with nothing set.
    pub open spec fn empty() -> Self {
        AndroidNotificationView {
            title: None,
            body: None,
            icon: None,
            color: None,
            sound: None,
            tag: None,
            click_action: None,
            body_loc_key: None,
            body_loc_args: None,
            title_loc_key: None,
            title_loc_args: None,
            channel_id: None,
            ticker: None,
            sticky: None,
            event_time: None,
            local_only: None,
            notification_priority: None,
            default_sound: None,
            default_vibrate_timings: None,
            default_light_settings: None,
            vibrate_timings: None,
            visibility: None,
            notification_count: None,
            light_settings: None,
            image: None,
        }
    }

    /// The fields in the order in which they are written.
    pub open spec fn fields(self) -> Seq<Field> {
        Seq::empty()
            .push(text_field("title"@, self.title))
            .push(text_field("body"@, self.body))
            .push(text_field("icon"@, self.icon))
            .push(text_field("color"@, self.color))
            .push(text_field("sound"@, self.sound))
            .push(text_field("tag"@, self.tag))
            .push(text_field("click_action"@, self.click_action))
            .push(text_field("body_loc_key"@, self.body_loc_key))
            .push(text_list_field("body_loc_args"@, self.body_loc_args))
            .push(text_field("title_loc_key"@, self.title_loc_key))
            .push(text_list_field("title_loc_args"@, self.title_loc_args))
            .push(text_field("channel_id"@, self.channel_id))
            .push(text_field("ticker"@, self.ticker))
            .push(flag_field("sticky"@, self.sticky))
            .push(text_field("event_time"@, self.event_time))
            .push(flag_field("local_only"@, self.local_only))
            .push(priority_field("notification_priority"@, self.notification_priority))
            .push(flag_field("default_sound"@, self.default_sound))
            .push(flag_field("default_vibrate_timings"@, self.default_vibrate_timings))
            .push(flag_field("default_light_settings"@, self.default_light_settings))
            .push(text_list_field("vibrate_timings"@, self.vibrate_timings))
            .push(visibility_field("visibility"@, self.visibility))
            .push(count_field("notification_count"@, self.notification_count))
            .push(record_field("light_settings"@, self.light_settings))
            .push(text_field("image"@, self.image))
    }
}

impl JsonModel for AndroidNotificationView {
    open spec fn json(self) -> JsonView {
        JsonView::Object(object_of(self.fields()))
    }
}

/// The RFC 3339 text of an instant, where it has one.
pub uninterp spec fn rfc3339_text(instant: time::OffsetDateTime) -> Option<Seq<char>>;

impl AndroidNotification {
    /// A notification with nothing set.
    pub fn new() -> (notification: Self)
        ensures
            notification@ == AndroidNotificationView::empty(),
    {
        AndroidNotification {
            title: None,
            body: None,
            icon: None,
            color: None,
            sound: None,
            tag: None,
            click_action: None,
            body_loc_key: None,
            body_loc_args: None,
            title_loc_key: None,
            title_loc_args: None,
            channel_id: None,
            ticker: None,
            sticky: None,
            event_time: None,
            local_only: None,
            notification_priority: None,
            default_sound: None,
            default_vibrate_timings: None,
            default_light_settings: None,
            vibrate_timings: None,
            visibility: None,
            notification_count: None,
            light_settings: None,
            image: None,
        }
    }

    /// Sets the title.
    pub fn title(&mut self, title: &str) -> (ret: &mut Self)
        ensures
            ret@ == (AndroidNotificationView {
                title: Some(title@),
                ..old(self)@
            }),
            *final(self) == *final(ret),
    {
        self.title = Some(title.to_owned());
        self
    }

    /// Sets the body text.
    pub fn body(&mut self, body: &str) -> (ret: &mut Self)
        ensures
            ret@ == (AndroidNotificationView {
                body: Some(body@),
                ..old(self)@
            }),
            *final(self) == *final(ret),
    {
        self.body = Some(body.to_owned());
        self
    }

    /// Sets the icon.
    pub fn icon(&mut self, icon: &str) -> (ret: &mut Self)
        ensures
            ret@ == (AndroidNotificationView {
                icon: Some(icon@),
                ..old(self)@
            }),
            *final(self) == *final(ret),
    {
        self.icon = Some(icon.to_owned());
        self
    }

    /// Sets the colour of the icon, in the form `#rrggbb`.
    pub fn color(&mut self, color: &str) -> (ret: &mut Self)
        ensures
            ret@ == (AndroidNotificationView {
                color: Some(color@),
                ..old(self)@
            }),
            *final(self) == *final(ret),
    {
        self.color = Some(color.to_owned());
        self
    }

    /// Sets the sound to play.
    pub fn sound(&mut self, sound: &str) -> (ret: &mut Self)
        ensures
            ret@ == (AndroidNotificationView {
                sound: Some(sound@),
                ..old(self)@
            }),
            *final(self) == *final(ret),
    {
        self.sound = Some(sound.to_owned());
        self
    }

    /// Sets the tag, by which a notification replaces an earlier one.
    pub fn tag(&mut self, tag: &str) -> (ret: &mut Self)
        ensures
            ret@ == (AndroidNotificationView {
                tag: Some(tag@),
                ..old(self)@
            }),
            *final(self) == *final(ret),
    {
        self.tag = Some(tag.to_owned());
        self
    }

    /// Sets the action that a click starts.
    pub fn click_action(&mut self, click_action: &str) -> (ret: &mut Self)
        ensures
            ret@ == (AndroidNotificationView {
                click_action: Some(click_action@),
                ..old(self)@
            }),
            *final(self) == *final(ret),
    {
        self.click_action = Some(click_action.to_owned());
        self
    }

    /// Sets the key of the body text among the app's string resources.
    pub fn body_loc_key(&mut self, body_loc_key: &str) -> (ret: &mut Self)
        ensures
            ret@ == (AndroidNotificationView {
                body_loc_key: Some(body_loc_key@),
                ..old(self)@
            }),
            *final(self) == *final(ret),
    {
        self.body_loc_key = Some(body_loc_key.to_owned());
        self
    }

    /// Sets the values for the format specifiers of the localised body text.
    pub fn body_loc_args(&mut self, body_loc_args: Vec<String>) -> (ret: &mut Self)
        ensures
            ret@ == (AndroidNotificationView {
                body_loc_args: Some(text_list(body_loc_args)),
                ..old(self)@
            }),
            *final(self) == *final(ret),
    {
        self.body_loc_args = Some(body_loc_args);
        self
    }

    /// Sets the key of the title among the app's string resources.
    pub fn title_loc_key(&mut self, title_loc_key: &str) -> (ret: &mut Self)
        ensures
            ret@ == (AndroidNotificationView {
                title_loc_key: Some(title_loc_key@),
                ..old(self)@
            }),
            *final(self) == *final(ret),
    {
        self.title_loc_key = Some(title_loc_key.to_owned());
        self
    }

    /// Sets the values for the format specifiers of the localised title.
    pub fn title_loc_args(&mut self, title_loc_args: Vec<String>) -> (ret: &mut Self)
        ensures
            ret@ == (AndroidNotificationView {
                title_loc_args: Some(text_list(title_loc_args)),
                ..old(self)@
            }),
            *final(self) == *final(ret),
    {
        self.title_loc_args = Some(title_loc_args);
        self
    }

    /// Sets the notification channel.
    pub fn channel_id(&mut self, channel_id: &str) -> (ret: &mut Self)
        ensures
            ret@ == (AndroidNotificationView {
                channel_id: Some(channel_id@),
                ..old(self)@
            }),
            *final(self) == *final(ret),
    {
        self.channel_id = Some(channel_id.to_owned());
        self
    }

    /// Sets the text that accessibility services announce.
    pub fn ticker(&mut self, ticker: &str) -> (ret: &mut Self)
        ensures
            ret@ == (AndroidNotificationView {
                ticker: Some(ticker@),
                ..old(self)@
            }),
            *final(self) == *final(ret),
    {
        self.ticker = Some(ticker.to_owned());
        self
    }

    /// Sets whether the notification stays when the user clicks it.
    pub fn sticky(&mut self, sticky: bool) -> (ret: &mut Self)
        ensures
            ret@ == (AndroidNotificationView {
                sticky: Some(sticky),
                ..old(self)@
            }),
            *final(self) == *final(ret),
    {
        self.sticky = Some(sticky);
        self
    }

    /// Sets the time of the event to the RFC 3339 text of `event_time`. An
    /// instant that has no such text is refused, and nothing changes.
    pub fn event_time(&mut self, event_time: time::OffsetDateTime) -> (outcome: Result<
        &mut Self,
        Error,
    >)
        ensures
            match outcome {
                Ok(ret) => rfc3339_text(event_time) is Some && ret@ == (AndroidNotificationView {
                    event_time: rfc3339_text(event_time),
                    ..old(self)@
                }) && *final(self) == *final(ret),
                Err(e) => rfc3339_text(event_time) is None && e is TimeFormatError && *final(self)
                    == *old(self),
            },
    {
        self.event_time_rendered(format_rfc3339(event_time))
    }

    /// Takes the outcome of rendering an instant: a text becomes the time of
    /// the event, a failure is handed on and nothing changes.
    pub fn event_time_rendered(&mut self, rendered: Result<String, String>) -> (outcome: Result<
        &mut Self,
        Error,
    >)
        ensures
            match outcome {
                Ok(ret) => rendered is Ok && ret@ == (AndroidNotificationView {
                    event_time: Some(rendered->Ok_0@),
                    ..old(self)@
                }) && *final(self) == *final(ret),
                Err(e) => rendered is Err && e == Error::TimeFormatError(rendered->Err_0)
                    && *final(self) == *old(self),
            },
    {
        match rendered {
            Ok(text) => {
                self.event_time = Some(text);
                Ok(self)
            },
            Err(reason) => Err(Error::TimeFormatError(reason)),
        }
    }

    /// Sets whether the notification stays on the local device.
    pub fn local_only(&mut self, local_only: bool) -> (ret: &mut Self)
        ensures
            ret@ == (AndroidNotificationView {
                local_only: Some(local_only),
                ..old(self)@
            }),
            *final(self) == *final(ret),
    {
        self.local_only = Some(local_only);
        self
    }

    /// Sets the priority.
    pub fn notification_priority(&mut self, notification_priority: NotificationPriority) -> (ret: &mut Self)
        ensures
            ret@ == (AndroidNotificationView {
                notification_priority: Some(notification_priority),
                ..old(self)@
            }),
            *final(self) == *final(ret),
    {
        self.notification_priority = Some(notification_priority);
        self
    }

    /// Sets whether the default sound is played.
    pub fn default_sound(&mut self, default_sound: bool) -> (ret: &mut Self)
        ensures
            ret@ == (AndroidNotificationView {
                default_sound: Some(default_sound),
                ..old(self)@
            }),
            *final(self) == *final(ret),
    {
        self.default_sound = Some(default_sound);
        self
    }

    /// Sets whether the default vibration pattern is used.
    pub fn default_vibrate_timings(&mut self, default_vibrate_timings: bool) -> (ret: &mut Self)
        ensures
            ret@ == (AndroidNotificationView {
                default_vibrate_timings: Some(default_vibrate_timings),
                ..old(self)@
            }),
            *final(self) == *final(ret),
    {
        self.default_vibrate_timings = Some(default_vibrate_timings);
        self
    }

    /// Sets whether the default light settings are used.
    pub fn default_light_settings(&mut self, default_light_settings: bool) -> (ret: &mut Self)
        ensures
            ret@ == (AndroidNotificationView {
                default_light_settings: Some(default_light_settings),
                ..old(self)@
            }),
            *final(self) == *final(ret),
    {
        self.default_light_settings = Some(default_light_settings);
        self
    }

    /// Sets the vibration pattern, as durations.
    pub fn vibrate_timings(&mut self, vibrate_timings: Vec<String>) -> (ret: &mut Self)
        ensures
            ret@ == (AndroidNotificationView {
                vibrate_timings: Some(text_list(vibrate_timings)),
                ..old(self)@
            }),
            *final(self) == *final(ret),
    {
        self.vibrate_timings = Some(vibrate_timings);
        self
    }

    /// Sets the visibility.
    pub fn visibility(&mut self, visibility: Visibility) -> (ret: &mut Self)
        ensures
            ret@ == (AndroidNotificationView {
                visibility: Some(visibility),
                ..old(self)@
            }),
            *final(self) == *final(ret),
    {
        self.visibility = Some(visibility);
        self
    }

    /// Sets the number of items that the notification stands for.
    pub fn notification_count(&mut self, notification_count: i32) -> (ret: &mut Self)
        ensures
            ret@ == (AndroidNotificationView {
                notification_count: Some(notification_count),
                ..old(self)@
            }),
            *final(self) == *final(ret),
    {
        self.notification_count = Some(notification_count);
        self
    }

    /// Sets the light settings.
    pub fn light_settings(&mut self, light_settings: LightSettings) -> (ret: &mut Self)
        ensures
            ret@ == (AndroidNotificationView {
                light_settings: Some(light_settings@),
                ..old(self)@
            }),
            *final(self) == *final(ret),
    {
        self.light_settings = Some(light_settings);
        self
    }

    /// Sets the address of an image.
    pub fn image(&mut self, image: &str) -> (ret: &mut Self)
        ensures
            ret@ == (AndroidNotificationView {
                image: Some(image@),
                ..old(self)@
            }),
            *final(self) == *final(ret),
    {
        self.image = Some(image.to_owned());
        self
    }

    /// The document that the notification is sent as.
    pub fn to_json(&self) -> (doc: Json)
        ensures
            doc@ == self@.json(),
    {
        let priority = match &self.notification_priority {
            Some(p) => Some(p.as_str().to_owned()),
            None => None,
        };
        let visibility = match &self.visibility {
            Some(v) => Some(v.as_str().to_owned()),
            None => None,
        };
        let count = match self.notification_count {
            Some(c) => Some(Json::integer(c as i64)),
            None => None,
        };
        let light = match &self.light_settings {
            Some(l) => Some(l.to_json()),
            None => None,
        };
        ObjectBuilder::new()
            .text("title", &self.title)
            .text("body", &self.body)
            .text("icon", &self.icon)
            .text("color", &self.color)
            .text("sound", &self.sound)
            .text("tag", &self.tag)
            .text("click_action", &self.click_action)
            .text("body_loc_key", &self.body_loc_key)
            .text_list("body_loc_args", &self.body_loc_args)
            .text("title_loc_key", &self.title_loc_key)
            .text_list("title_loc_args", &self.title_loc_args)
            .text("channel_id", &self.channel_id)
            .text("ticker", &self.ticker)
            .flag("sticky", self.sticky)
            .text("event_time", &self.event_time)
            .flag("local_only", self.local_only)
            .text("notification_priority", &priority)
            .flag("default_sound", self.default_sound)
            .flag("default_vibrate_timings", self.default_vibrate_timings)
            .flag("default_light_settings", self.default_light_settings)
            .text_list("vibrate_timings", &self.vibrate_timings)
            .text("visibility", &visibility)
            .put("notification_count", count)
            .put("light_settings", light)
            .text("image", &self.image)
            .finish()
    }
}

impl Default for AndroidNotification {
    fn default() -> (notification: Self)
        ensures
            notification@ == AndroidNotificationView::empty(),
    {
        AndroidNotification::new()
    }
}

/// The Android notification is sent as an object that holds exactly its
/// present fields, each under its own key; a field that is absent is left
/// out.
pub proof fn lemma_android_notification_json(record: AndroidNotificationView)
    ensures
        distinct_keys(record.fields()),
        record.json() is Object,
        holds_exactly(record.json()->Object_0, record.fields()),
{
    reveal_strlit("title");
    reveal_strlit("body");
    reveal_strlit("icon");
    reveal_strlit("color");
    reveal_strlit("sound");
    reveal_strlit("tag");
    reveal_strlit("click_action");
    reveal_strlit("body_loc_key");
    reveal_strlit("body_loc_args");
    reveal_strlit("title_loc_key");
    reveal_strlit("title_loc_args");
    reveal_strlit("channel_id");
    reveal_strlit("ticker");
    reveal_strlit("sticky");
    reveal_strlit("event_time");
    reveal_strlit("local_only");
    reveal_strlit("notification_priority");
    reveal_strlit("default_sound");
    reveal_strlit("default_vibrate_timings");
    reveal_strlit("default_light_settings");
    reveal_strlit("vibrate_timings");
    reveal_strlit("visibility");
    reveal_strlit("notification_count");
    reveal_strlit("light_settings");
    reveal_strlit("image");
    assert("title"@.len() == 5);
    assert("body"@.len() == 4);
    assert("icon"@.len() == 4);
    assert("color"@.len() == 5);
    assert("sound"@.len() == 5);
    assert("tag"@.len() == 3);
    assert("click_action"@.len() == 12);
    assert("body_loc_key"@.len() == 12);
    assert("body_loc_args"@.len() == 13);
    assert("title_loc_key"@.len() == 13);
    assert("title_loc_args"@.len() == 14);
    assert("channel_id"@.len() == 10);
    assert("ticker"@.len() == 6);
    assert("sticky"@.len() == 6);
    assert("event_time"@.len() == 10);
    assert("local_only"@.len() == 10);
    assert("notification_priority"@.len() == 21);
    assert("default_sound"@.len() == 13);
    assert("default_vibrate_timings"@.len() == 23);
    assert("default_light_settings"@.len() == 22);
    assert("vibrate_timings"@.len() == 15);
    assert("visibility"@.len() == 10);
    assert("notification_count"@.len() == 18);
    assert("light_settings"@.len() == 14);
    assert("image"@.len() == 5);
    assert("title"@[0] == 't');
    assert("color"@[0] == 'c');
    assert("sound"@[0] == 's');
    assert("image"@[0] == 'i');
    assert("body"@[0] == 'b');
    assert("icon"@[0] == 'i');
    assert("click_action"@[0] == 'c');
    assert("body_loc_key"@[0] == 'b');
    assert("body_loc_args"@[0] == 'b');
    assert("title_loc_key"@[0] == 't');
    assert("default_sound"@[0] == 'd');
    assert("title_loc_args"@[0] == 't');
    assert("light_settings"@[0] == 'l');
    assert("channel_id"@[0] == 'c');
    assert("event_time"@[0] == 'e');
    assert("local_only"@[0] == 'l');
    assert("visibility"@[0] == 'v');
    assert("ticker"@[0] == 't');
    assert("sticky"@[0] == 's');
    assert(distinct_keys(record.fields()));
    lemma_object_of_fields(record.fields());
}

/// `OffsetDateTime::format` of the `time` crate with its `Rfc3339`
/// description: the text depends on the instant alone. A failure comes back
/// as its message.
#[verifier::external_body]
fn format_rfc3339(instant: time::OffsetDateTime) -> (outcome: Result<String, String>)
    ensures
        match outcome {
            Ok(text) => rfc3339_text(instant) == Some(text@),
            Err(_) => rfc3339_text(instant) is None,
        },
{
    instant.format(&time::format_description::well_known::Rfc3339).map_err(|e| e.to_string())
}

} // verus!
