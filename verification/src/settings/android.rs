//! The settings of a message for Android.

use crate::json::{
    distinct_keys, flag_field, holds_exactly, lemma_object_of_fields, object_of, record_field,
    text_field, viewed, Field, Json, JsonModel, JsonView, ObjectBuilder,
};
use crate::notification::android::{AndroidNotification, AndroidNotificationView};
use crate::settings::fcm::{AndroidFcmOptions, AndroidFcmOptionsView};
use crate::utils::error::Error;
use crate::utils::map::{map_field, FirebaseMap, IntoFirebaseMap};
use crate::utils::text::{decimal, duration_string, duration_text};
use vstd::prelude::*;

verus! {

/// How urgently Android delivers a message.
#[derive(Debug, Clone, Copy)]
pub enum AndroidMessagePriority {
    Normal,
    High,
}

impl AndroidMessagePriority {
    /// The word that the priority is written as: its name in lower case.
    pub open spec fn token(self) -> Seq<char> {
        match self {
            AndroidMessagePriority::Normal => "normal"@,
            AndroidMessagePriority::High => "high"@,
        }
    }

    /// An optional priority as a field: the priority's word.
    pub open spec fn field(key: Seq<char>, value: Option<AndroidMessagePriority>) -> Field {
        text_field(
            key,
            match value {
                Some(p) => Some(p.token()),
                None => None,
            },
        )
    }

    /// The word that the priority is written as.
    pub fn as_str(&self) -> (word: &'static str)
        ensures
            word@ == self.token(),
    {
        match self {
            AndroidMessagePriority::Normal => "normal",
            AndroidMessagePriority::High => "high",
        }
    }
}

/// All settings of a message for Android. Every field is optional.
#[derive(Debug, Clone)]
pub struct AndroidConfig {
    collapse_key: Option<String>,
    priority: Option<AndroidMessagePriority>,
    ttl: Option<String>,
    restricted_package_name: Option<String>,
    data: Option<FirebaseMap>,
    notification: Option<AndroidNotification>,
    fcm_options: Option<AndroidFcmOptions>,
    direct_boot_ok: Option<bool>,
}

/// The mathematical view of [`AndroidConfig`].
pub struct AndroidConfigView {
    pub collapse_key: Option<Seq<char>>,
    pub priority: Option<AndroidMessagePriority>,
    pub ttl: Option<Seq<char>>,
    pub restricted_package_name: Option<Seq<char>>,
    pub data: Option<Map<Seq<char>, Seq<char>>>,
    pub notification: Option<AndroidNotificationView>,
    pub fcm_options: Option<AndroidFcmOptionsView>,
    pub direct_boot_ok: Option<bool>,
}

impl View for AndroidConfig {
    type V = AndroidConfigView;

    closed spec fn view(&self) -> AndroidConfigView {
        AndroidConfigView {
            collapse_key: viewed(self.collapse_key),
            priority: self.priority,
            ttl: viewed(self.ttl),
            restricted_package_name: viewed(self.restricted_package_name),
            data: viewed(self.data),
            notification: viewed(self.notification),
            fcm_options: viewed(self.fcm_options),
            direct_boot_ok: self.direct_boot_ok,
        }
    }
}

impl AndroidConfigView {
    /// The settings with nothing set.
    pub open spec fn empty() -> Self {
        AndroidConfigView {
            collapse_key: None,
            priority: None,
            ttl: None,
            restricted_package_name: None,
            data: None,
            notification: None,
            fcm_options: None,
            direct_boot_ok: None,
        }
    }

    /// The fields in the order in which they are written.
    pub open spec fn fields(self) -> Seq<Field> {
        Seq::empty()
            .push(text_field("collapse_key"@, self.collapse_key))
            .push(AndroidMessagePriority::field("priority"@, self.priority))
            .push(text_field("ttl"@, self.ttl))
            .push(text_field("restricted_package_name"@, self.restricted_package_name))
            .push(map_field("data"@, self.data))
            .push(record_field("notification"@, self.notification))
            .push(record_field("fcm_options"@, self.fcm_options))
            .push(flag_field("direct_boot_ok"@, self.direct_boot_ok))
    }
}

impl JsonModel for AndroidConfigView {
    open spec fn json(self) -> JsonView {
        JsonView::Object(object_of(self.fields()))
    }
}

impl AndroidConfig {
    /// Settings with nothing set.
    pub fn new() -> (made: Self)
        ensures
            made@ == AndroidConfigView::empty(),
    {
        AndroidConfig {
            collapse_key: None,
            priority: None,
            ttl: None,
            restricted_package_name: None,
            data: None,
            notification: None,
            fcm_options: None,
            direct_boot_ok: None,
        }
    }

    /// Sets the key of the group of messages of which only the last is delivered.
    pub fn collapse_key(&mut self, collapse_key: &str) -> (ret: &mut Self)
        ensures
            ret@ == (AndroidConfigView {
                collapse_key: Some(collapse_key@),
                ..old(self)@
            }),
            *final(self) == *final(ret),
    {
        self.collapse_key = Some(collapse_key.to_owned());
        self
    }

    /// Sets the priority of the message.
    pub fn priority(&mut self, priority: AndroidMessagePriority) -> (ret: &mut Self)
        ensures
            ret@ == (AndroidConfigView {
                priority: Some(priority),
                ..old(self)@
            }),
            *final(self) == *final(ret),
    {
        self.priority = Some(priority);
        self
    }

    /// Sets for how many seconds the message is kept while the device is offline.
    pub fn ttl(&mut self, seconds: usize) -> (ret: &mut Self)
        ensures
            ret@ == (AndroidConfigView {
                ttl: Some(duration_text(seconds as nat)),
                ..old(self)@
            }),
            *final(self) == *final(ret),
    {
        self.ttl = Some(duration_string(seconds));
        self
    }

    /// Sets the package that alone may receive the message.
    pub fn restricted_package_name(&mut self, restricted_package_name: &str) -> (ret: &mut Self)
        ensures
            ret@ == (AndroidConfigView {
                restricted_package_name: Some(restricted_package_name@),
                ..old(self)@
            }),
            *final(self) == *final(ret),
    {
        self.restricted_package_name = Some(restricted_package_name.to_owned());
        self
    }

    /// Sets the data of the message for Android: the map that `data` is laid out as.
    /// This never fails.
    pub fn data(&mut self, data: impl IntoFirebaseMap) -> (outcome: Result<
        &mut Self,
        Error,
    >)
        ensures
            outcome is Ok,
            outcome->Ok_0@ == (AndroidConfigView {
                data: Some(data.projection()),
                ..old(self)@
            }),
            *final(self) == *final(outcome->Ok_0),
    {
        self.data = Some(data.as_map());
        Ok(self)
    }

    /// Sets the notification for Android.
    pub fn notification(&mut self, notification: AndroidNotification) -> (ret: &mut Self)
        ensures
            ret@ == (AndroidConfigView {
                notification: Some(notification@),
                ..old(self)@
            }),
            *final(self) == *final(ret),
    {
        self.notification = Some(notification);
        self
    }

    /// Sets the options of the service for Android.
    pub fn fcm_options(&mut self, fcm_options: AndroidFcmOptions) -> (ret: &mut Self)
        ensures
            ret@ == (AndroidConfigView {
                fcm_options: Some(fcm_options@),
                ..old(self)@
            }),
            *final(self) == *final(ret),
    {
        self.fcm_options = Some(fcm_options);
        self
    }

    /// Sets whether the message may be delivered while the device is in direct boot mode.
    pub fn direct_boot_ok(&mut self, direct_boot_ok: bool) -> (ret: &mut Self)
        ensures
            ret@ == (AndroidConfigView {
                direct_boot_ok: Some(direct_boot_ok),
                ..old(self)@
            }),
            *final(self) == *final(ret),
    {
        self.direct_boot_ok = Some(direct_boot_ok);
        self
    }

    /// The document that the settings are sent as.
    pub fn to_json(&self) -> (doc: Json)
        ensures
            doc@ == self@.json(),
    {
        let priority = match &self.priority {
            Some(x) => Some(x.as_str().to_owned()),
            None => None,
        };
        let data = match &self.data {
            Some(x) => Some(x.to_json()),
            None => None,
        };
        let notification = match &self.notification {
            Some(x) => Some(x.to_json()),
            None => None,
        };
        let fcm_options = match &self.fcm_options {
            Some(x) => Some(x.to_json()),
            None => None,
        };
        ObjectBuilder::new()
            .text("collapse_key", &self.collapse_key)
            .text("priority", &priority)
            .text("ttl", &self.ttl)
            .text("restricted_package_name", &self.restricted_package_name)
            .put("data", data)
            .put("notification", notification)
            .put("fcm_options", fcm_options)
            .flag("direct_boot_ok", self.direct_boot_ok)
            .finish()
    }
}

impl Default for AndroidConfig {
    fn default() -> (made: Self)
        ensures
            made@ == AndroidConfigView::empty(),
    {
        AndroidConfig::new()
    }
}

/// The settings for Android are sent as an object that holds exactly their present fields,
/// each under its own key; a field that is absent is left out.
pub proof fn lemma_android_config_json(record: AndroidConfigView)
    ensures
        distinct_keys(record.fields()),
        record.json() is Object,
        holds_exactly(record.json()->Object_0, record.fields()),
{
    reveal_strlit("collapse_key");
    reveal_strlit("priority");
    reveal_strlit("ttl");
    reveal_strlit("restricted_package_name");
    reveal_strlit("data");
    reveal_strlit("notification");
    reveal_strlit("fcm_options");
    reveal_strlit("direct_boot_ok");
    assert("collapse_key"@.len() == 12);
    assert("priority"@.len() == 8);
    assert("ttl"@.len() == 3);
    assert("restricted_package_name"@.len() == 23);
    assert("data"@.len() == 4);
    assert("notification"@.len() == 12);
    assert("fcm_options"@.len() == 11);
    assert("direct_boot_ok"@.len() == 14);
    assert("collapse_key"@[0] == 'c');
    assert("notification"@[0] == 'n');
    assert(distinct_keys(record.fields()));
    lemma_object_of_fields(record.fields());
}

/// Settings whose time to live was set to a count of seconds are sent with the
/// text `<N>s` under `ttl`, `N` being the decimal count.
pub proof fn lemma_ttl_json(config: AndroidConfigView, seconds: nat)
    requires
        config.ttl == Some(duration_text(seconds)),
    ensures
        config.json() is Object,
        config.json()->Object_0.contains_key("ttl"@),
        config.json()->Object_0["ttl"@] == JsonView::Text(decimal(seconds).push('s')),
{
    lemma_android_config_json(config);
    let fields = config.fields();
    assert(fields[2] == text_field("ttl"@, config.ttl));
    assert(object_of(fields).contains_key(fields[2].0));
}

} // verus!
