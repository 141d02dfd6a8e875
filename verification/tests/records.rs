use firebae_cm::{
    AndroidConfig, AndroidFcmOptions, AndroidMessagePriority, AndroidNotification, ApnsConfig,
    ApnsFcmOptions, Color, Error, FcmOptions, FirebaseMap, Json, LightSettings, MessageBody,
    Notification, NotificationPriority, Receiver, Visibility, WebpushConfig, WebpushFcmOptions,
};

fn json(text: &str) -> serde_json::Value {
    serde_json::from_str(text).unwrap()
}

fn value(doc: Json) -> serde_json::Value {
    serde_json::from_slice(&doc.encode().unwrap()).unwrap()
}

fn number(f: f64) -> serde_json::Number {
    serde_json::Number::from_f64(f).unwrap()
}

fn map(pairs: &[(&str, &str)]) -> FirebaseMap {
    let mut m = FirebaseMap::new();
    for (k, v) in pairs {
        m.insert(k, &v.to_string());
    }
    m
}

#[test]
fn receiver_constructors_make_their_kind() {
    assert!(matches!(Receiver::token("abcd"), Receiver::Token(s) if s == "abcd"));
    assert!(matches!(Receiver::topic("abcd"), Receiver::Topic(s) if s == "abcd"));
    assert!(matches!(Receiver::condition("abcd"), Receiver::Condition(s) if s == "abcd"));
}

#[test]
fn receiver_tag_is_its_kind_in_lower_case() {
    assert_eq!(Receiver::token("a").tag(), "token");
    assert_eq!(Receiver::topic("b").tag(), "topic");
    assert_eq!(Receiver::condition("c").tag(), "condition");
    assert_eq!(Receiver::token("a").payload(), "a");
    assert_eq!(Receiver::topic("b").payload(), "b");
    assert_eq!(Receiver::condition("c").payload(), "c");
}

#[test]
fn body_holds_exactly_one_receiver_key() {
    for (receiver, key) in [
        (Receiver::token("x"), "token"),
        (Receiver::topic("x"), "topic"),
        (Receiver::condition("x"), "condition"),
    ] {
        let doc = value(MessageBody::new(receiver).to_json());
        let object = doc.as_object().unwrap();
        assert_eq!(object.len(), 1);
        assert_eq!(object[key], "x");
    }
}

#[test]
fn priority_words() {
    assert_eq!(NotificationPriority::PriorityUnspecified.as_str(), "priority_unspecified");
    assert_eq!(NotificationPriority::PriorityMin.as_str(), "priority_min");
    assert_eq!(NotificationPriority::PriorityLow.as_str(), "priority_low");
    assert_eq!(NotificationPriority::PriorityDefault.as_str(), "priority_default");
    assert_eq!(NotificationPriority::PriorityHigh.as_str(), "priority_high");
    assert_eq!(NotificationPriority::PriorityMax.as_str(), "priority_max");
}

#[test]
fn visibility_words() {
    assert_eq!(Visibility::VisibilityUnspecified.as_str(), "visibility_unspecified");
    assert_eq!(Visibility::Private.as_str(), "private");
    assert_eq!(Visibility::Public.as_str(), "public");
    assert_eq!(Visibility::Secret.as_str(), "secret");
}

#[test]
fn android_priority_words() {
    assert_eq!(AndroidMessagePriority::Normal.as_str(), "normal");
    assert_eq!(AndroidMessagePriority::High.as_str(), "high");
}

#[test]
fn empty_records_are_empty_objects() {
    assert_eq!(value(Notification::new().to_json()), json("{}"));
    assert_eq!(value(LightSettings::new().to_json()), json("{}"));
    assert_eq!(value(AndroidNotification::new().to_json()), json("{}"));
    assert_eq!(value(AndroidConfig::new().to_json()), json("{}"));
    assert_eq!(value(ApnsConfig::new().to_json()), json("{}"));
    assert_eq!(value(WebpushConfig::new().to_json()), json("{}"));
    assert_eq!(value(FcmOptions { analytics_label: None }.to_json()), json("{}"));
    assert_eq!(value(AndroidFcmOptions { analytics_label: None }.to_json()), json("{}"));
    assert_eq!(value(ApnsFcmOptions { analytics_label: None, image: None }.to_json()), json("{}"));
    assert_eq!(value(WebpushFcmOptions { analytics_label: None, link: None }.to_json()), json("{}"));
}

#[test]
fn notification_fields() {
    let n = Notification::new().with_title("Hello, ").with_body("world!").with_image("/static/img.png");
    assert_eq!(n.title.as_deref(), Some("Hello, "));
    assert_eq!(n.body.as_deref(), Some("world!"));
    assert_eq!(n.image.as_deref(), Some("/static/img.png"));
    assert_eq!(
        value(n.to_json()),
        json(r#"{"title":"Hello, ","body":"world!","image":"/static/img.png"}"#)
    );
    let only_image = Notification::new().with_image("i");
    assert_eq!(value(only_image.to_json()), json(r#"{"image":"i"}"#));
    let replaced = Notification::new().with_title("a").with_title("b");
    assert_eq!(value(replaced.to_json()), json(r#"{"title":"b"}"#));
}

#[test]
fn options_fields() {
    let label = Some("l".to_string());
    assert_eq!(
        value(FcmOptions { analytics_label: label.clone() }.to_json()),
        json(r#"{"analytics_label":"l"}"#)
    );
    assert_eq!(
        value(AndroidFcmOptions { analytics_label: label.clone() }.to_json()),
        json(r#"{"analytics_label":"l"}"#)
    );
    assert_eq!(
        value(ApnsFcmOptions { analytics_label: label.clone(), image: Some("i".to_string()) }.to_json()),
        json(r#"{"analytics_label":"l","image":"i"}"#)
    );
    assert_eq!(
        value(WebpushFcmOptions { analytics_label: None, link: Some("k".to_string()) }.to_json()),
        json(r#"{"link":"k"}"#)
    );
}

#[test]
fn color_writes_all_four_components() {
    let color = Color { red: number(1.0), green: number(0.5), blue: number(0.0), alpha: number(0.25) };
    assert_eq!(
        value(color.to_json()),
        json(r#"{"red":1.0,"green":0.5,"blue":0.0,"alpha":0.25}"#)
    );
    assert_eq!(value(color.duplicate().to_json()), value(color.to_json()));
}

#[test]
fn light_settings_fields() {
    let color = Color { red: number(0.5), green: number(0.5), blue: number(0.5), alpha: number(1.0) };
    let mut light = LightSettings::new();
    light.color(color).light_on_duration(3).light_off_duration(0);
    assert_eq!(
        value(light.to_json()),
        json(
            r#"{"color":{"red":0.5,"green":0.5,"blue":0.5,"alpha":1.0},"light_on_duration":"3s","light_off_duration":"0s"}"#
        )
    );
    let mut only_off = LightSettings::new();
    only_off.light_off_duration(7200);
    assert_eq!(value(only_off.to_json()), json(r#"{"light_off_duration":"7200s"}"#));
}

#[test]
fn android_notification_all_fields() {
    let mut light = LightSettings::new();
    light.light_on_duration(1);
    let mut n = AndroidNotification::new();
    n.title("t")
        .body("b")
        .icon("i")
        .color("#ff0000")
        .sound("s")
        .tag("g")
        .click_action("c")
        .body_loc_key("blk")
        .body_loc_args(vec!["x".to_string(), "y".to_string()])
        .title_loc_key("tlk")
        .title_loc_args(vec!["z".to_string()])
        .channel_id("ch")
        .ticker("tk")
        .sticky(true)
        .local_only(false)
        .notification_priority(NotificationPriority::PriorityHigh)
        .default_sound(true)
        .default_vibrate_timings(false)
        .default_light_settings(true)
        .vibrate_timings(vec!["3.5s".to_string()])
        .visibility(Visibility::Secret)
        .notification_count(-3)
        .light_settings(light)
        .image("img");
    n.event_time(time::OffsetDateTime::UNIX_EPOCH).unwrap();
    assert_eq!(
        value(n.to_json()),
        json(
            r##"{"title":"t","body":"b","icon":"i","color":"#ff0000","sound":"s","tag":"g",
            "click_action":"c","body_loc_key":"blk","body_loc_args":["x","y"],"title_loc_key":"tlk",
            "title_loc_args":["z"],"channel_id":"ch","ticker":"tk","sticky":true,
            "event_time":"1970-01-01T00:00:00Z","local_only":false,
            "notification_priority":"priority_high","default_sound":true,
            "default_vibrate_timings":false,"default_light_settings":true,
            "vibrate_timings":["3.5s"],"visibility":"secret","notification_count":-3,
            "light_settings":{"light_on_duration":"1s"},"image":"img"}"##
        )
    );
}

#[test]
fn android_notification_single_fields() {
    let mut n = AndroidNotification::new();
    n.notification_count(i32::MAX);
    assert_eq!(value(n.to_json()), json(r#"{"notification_count":2147483647}"#));
    let mut n = AndroidNotification::new();
    n.notification_count(i32::MIN).body_loc_args(Vec::new());
    assert_eq!(
        value(n.to_json()),
        json(r#"{"notification_count":-2147483648,"body_loc_args":[]}"#)
    );
    let mut n = AndroidNotification::new();
    n.visibility(Visibility::VisibilityUnspecified)
        .notification_priority(NotificationPriority::PriorityUnspecified);
    assert_eq!(
        value(n.to_json()),
        json(r#"{"visibility":"visibility_unspecified","notification_priority":"priority_unspecified"}"#)
    );
}

#[test]
fn event_time_is_rfc_3339_with_offset() {
    let instant = time::OffsetDateTime::from_unix_timestamp(1_700_000_000)
        .unwrap()
        .to_offset(time::UtcOffset::from_hms(2, 30, 0).unwrap());
    let mut n = AndroidNotification::new();
    n.event_time(instant).unwrap();
    assert_eq!(value(n.to_json()), json(r#"{"event_time":"2023-11-15T00:43:20+02:30"}"#));
}

#[test]
fn event_time_that_cannot_be_rendered_is_refused() {
    let instant = time::OffsetDateTime::UNIX_EPOCH
        .to_offset(time::UtcOffset::from_hms(0, 0, 1).unwrap());
    let mut n = AndroidNotification::new();
    n.title("kept");
    match n.event_time(instant) {
        Err(Error::TimeFormatError(reason)) => assert!(!reason.is_empty()),
        other => panic!("unexpected outcome: {:?}", other.map(|_| ())),
    }
    assert_eq!(value(n.to_json()), json(r#"{"title":"kept"}"#));
}

#[test]
fn event_time_rendered_takes_either_outcome() {
    let mut n = AndroidNotification::new();
    n.event_time_rendered(Ok("2020-01-02T03:04:05Z".to_string())).unwrap().sticky(true);
    assert_eq!(
        value(n.to_json()),
        json(r#"{"event_time":"2020-01-02T03:04:05Z","sticky":true}"#)
    );
    match n.event_time_rendered(Err("no".to_string())) {
        Err(Error::TimeFormatError(reason)) => assert_eq!(reason, "no"),
        other => panic!("unexpected outcome: {:?}", other.map(|_| ())),
    }
    assert_eq!(
        value(n.to_json()),
        json(r#"{"event_time":"2020-01-02T03:04:05Z","sticky":true}"#)
    );
}

#[test]
fn android_config_fields() {
    let mut notification = AndroidNotification::new();
    notification.title("t");
    let mut config = AndroidConfig::new();
    config
        .collapse_key("ck")
        .priority(AndroidMessagePriority::High)
        .ttl(0)
        .restricted_package_name("pkg")
        .notification(notification)
        .fcm_options(AndroidFcmOptions { analytics_label: Some("l".to_string()) })
        .direct_boot_ok(false)
        .data(map(&[("a", "1")]))
        .unwrap();
    assert_eq!(
        value(config.to_json()),
        json(
            r#"{"collapse_key":"ck","priority":"high","ttl":"0s","restricted_package_name":"pkg",
            "data":{"a":"1"},"notification":{"title":"t"},"fcm_options":{"analytics_label":"l"},
            "direct_boot_ok":false}"#
        )
    );
    let mut normal = AndroidConfig::new();
    normal.priority(AndroidMessagePriority::Normal).ttl(2419200);
    assert_eq!(value(normal.to_json()), json(r#"{"priority":"normal","ttl":"2419200s"}"#));
}

#[test]
fn apns_config_fields() {
    let mut config = ApnsConfig::new();
    config.headers(map(&[("apns-priority", "10")])).unwrap();
    config.payload(map(&[("k", "v"), ("l", "w")])).unwrap();
    config.fcm_options(ApnsFcmOptions { analytics_label: None, image: Some("i".to_string()) });
    assert_eq!(
        value(config.to_json()),
        json(r#"{"headers":{"apns-priority":"10"},"payload":{"k":"v","l":"w"},"fcm_options":{"image":"i"}}"#)
    );
}

#[test]
fn webpush_config_fields() {
    let notification = Json::parse(br#"{"title":"t","actions":[{"action":"a"}],"renotify":true,"n":null}"#).unwrap();
    let mut config = WebpushConfig::new();
    config.headers(map(&[("TTL", "60")])).unwrap().data(map(&[])).unwrap();
    config.notification(notification).unwrap();
    config.fcm_options(WebpushFcmOptions { analytics_label: Some("l".to_string()), link: None });
    assert_eq!(
        value(config.to_json()),
        json(
            r#"{"headers":{"TTL":"60"},"data":{},
            "notification":{"title":"t","actions":[{"action":"a"}],"renotify":true,"n":null},
            "fcm_options":{"analytics_label":"l"}}"#
        )
    );
}

#[test]
fn message_body_all_fields() {
    let mut android = AndroidConfig::new();
    android.ttl(5);
    let mut apns = ApnsConfig::new();
    apns.headers(map(&[("h", "1")])).unwrap();
    let mut webpush = WebpushConfig::new();
    webpush.data(map(&[("d", "2")])).unwrap();
    let mut body = MessageBody::new(Receiver::token("dev"));
    body.name("Celebration")
        .notification(Notification::new().with_title("Hello, "))
        .android(android)
        .apns(apns)
        .webpush(webpush)
        .fcm_options(FcmOptions { analytics_label: Some("l".to_string()) })
        .data(map(&[("k", "v")]))
        .unwrap();
    assert_eq!(
        value(body.to_json()),
        json(
            r#"{"name":"Celebration","token":"dev","data":{"k":"v"},
            "notification":{"title":"Hello, "},"android":{"ttl":"5s"},
            "apns":{"headers":{"h":"1"}},"webpush":{"data":{"d":"2"}},
            "fcm_options":{"analytics_label":"l"}}"#
        )
    );
}

#[test]
fn a_setter_called_again_replaces_the_value() {
    let mut config = AndroidConfig::new();
    config.ttl(1).ttl(2).collapse_key("a").collapse_key("b");
    assert_eq!(value(config.to_json()), json(r#"{"collapse_key":"b","ttl":"2s"}"#));
    let mut body = MessageBody::new(Receiver::topic("t"));
    body.data(map(&[("a", "1")])).unwrap().data(map(&[("b", "2")])).unwrap();
    assert_eq!(value(body.to_json()), json(r#"{"topic":"t","data":{"b":"2"}}"#));
}

#[test]
fn strings_are_written_as_json_strings() {
    let mut body = MessageBody::new(Receiver::topic("quote\" back\\ newline\n tab\t é 日本"));
    body.name("");
    let text = body.to_json().encode().unwrap();
    assert_eq!(
        String::from_utf8(text).unwrap(),
        "{\"name\":\"\",\"topic\":\"quote\\\" back\\\\ newline\\n tab\\t é 日本\"}"
    );
}

#[test]
fn defaults_have_nothing_set() {
    assert_eq!(value(AndroidNotification::default().to_json()), json("{}"));
    assert_eq!(value(LightSettings::default().to_json()), json("{}"));
    assert_eq!(value(AndroidConfig::default().to_json()), json("{}"));
    assert_eq!(value(ApnsConfig::default().to_json()), json("{}"));
    assert_eq!(value(WebpushConfig::default().to_json()), json("{}"));
    assert_eq!(value(FirebaseMap::default().to_json()), json("{}"));
}

#[test]
fn web_notification_with_a_repeated_key_is_written_with_the_last_value() {
    let notification = Json::Object(vec![
        ("title".to_string(), Json::Text("old".to_string())),
        ("title".to_string(), Json::Text("new".to_string())),
    ]);
    let mut config = WebpushConfig::new();
    config.notification(notification).unwrap();
    assert_eq!(value(config.to_json()), json(r#"{"notification":{"title":"new"}}"#));
}
