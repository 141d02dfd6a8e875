use firebae_cm::utils::text::{
    decimal_string, duration_string, push_decimal, signed_decimal_string, strip_trailing_dots,
};
use firebae_cm::{FirebaseMap, FirebaseMapValue, IntoFirebaseMap};

fn entries(map: FirebaseMap) -> Vec<(String, String)> {
    let mut entries = map.get_map();
    entries.sort();
    entries
}

fn pair(k: &str, v: &str) -> (String, String) {
    (k.to_string(), v.to_string())
}

#[test]
fn decimal_of_unsigned_integers() {
    assert_eq!(decimal_string(0), "0");
    assert_eq!(decimal_string(7), "7");
    assert_eq!(decimal_string(10), "10");
    assert_eq!(decimal_string(1234567890), "1234567890");
    assert_eq!(decimal_string(u128::MAX), "340282366920938463463374607431768211455");
}

#[test]
fn decimal_of_signed_integers() {
    assert_eq!(signed_decimal_string(0), "0");
    assert_eq!(signed_decimal_string(-1), "-1");
    assert_eq!(signed_decimal_string(5481), "5481");
    assert_eq!(signed_decimal_string(i128::MIN), "-170141183460469231731687303715884105728");
    assert_eq!(signed_decimal_string(i128::MAX), "170141183460469231731687303715884105727");
}

#[test]
fn push_decimal_appends() {
    let mut s = String::from("n=");
    push_decimal(&mut s, 905);
    assert_eq!(s, "n=905");
}

#[test]
fn duration_is_seconds_and_the_letter_s() {
    assert_eq!(duration_string(0), "0s");
    assert_eq!(duration_string(60), "60s");
    assert_eq!(duration_string(86400), "86400s");
    assert_eq!(duration_string(usize::MAX), format!("{}s", usize::MAX));
}

#[test]
fn trailing_dots_are_stripped() {
    assert_eq!(strip_trailing_dots("abc..."), "abc");
    assert_eq!(strip_trailing_dots("abc"), "abc");
    assert_eq!(strip_trailing_dots("a.b.c."), "a.b.c");
    assert_eq!(strip_trailing_dots("..."), "");
    assert_eq!(strip_trailing_dots(""), "");
    assert_eq!(strip_trailing_dots(".a"), ".a");
    assert_eq!(strip_trailing_dots("日本.."), "日本");
}

#[test]
fn canonical_text_of_each_scalar() {
    assert_eq!(FirebaseMapValue::to_string(&"text".to_string()), "text");
    assert_eq!(FirebaseMapValue::to_string(&true), "true");
    assert_eq!(FirebaseMapValue::to_string(&false), "false");
    assert_eq!(FirebaseMapValue::to_string(&'x'), "x");
    assert_eq!(FirebaseMapValue::to_string(&'é'), "é");
    assert_eq!(FirebaseMapValue::to_string(&i8::MIN), "-128");
    assert_eq!(FirebaseMapValue::to_string(&i16::MIN), "-32768");
    assert_eq!(FirebaseMapValue::to_string(&i32::MIN), "-2147483648");
    assert_eq!(FirebaseMapValue::to_string(&i64::MIN), "-9223372036854775808");
    assert_eq!(FirebaseMapValue::to_string(&i128::MIN), format!("{}", i128::MIN));
    assert_eq!(FirebaseMapValue::to_string(&isize::MIN), format!("{}", isize::MIN));
    assert_eq!(FirebaseMapValue::to_string(&u8::MAX), "255");
    assert_eq!(FirebaseMapValue::to_string(&u16::MAX), "65535");
    assert_eq!(FirebaseMapValue::to_string(&u32::MAX), "4294967295");
    assert_eq!(FirebaseMapValue::to_string(&u64::MAX), "18446744073709551615");
    assert_eq!(FirebaseMapValue::to_string(&u128::MAX), format!("{}", u128::MAX));
    assert_eq!(FirebaseMapValue::to_string(&usize::MAX), format!("{}", usize::MAX));
    assert_eq!(FirebaseMapValue::to_string(&15i32), "15");
}

#[test]
fn new_map_is_empty() {
    assert_eq!(entries(FirebaseMap::new()), Vec::new());
}

#[test]
fn insert_puts_the_canonical_text_under_the_key() {
    let mut m = FirebaseMap::new();
    m.insert("a", &"Hello, world!".to_string());
    m.insert("b", &5481i32);
    m.insert("c", &false);
    m.insert("d", &'z');
    assert_eq!(
        entries(m),
        vec![pair("a", "Hello, world!"), pair("b", "5481"), pair("c", "false"), pair("d", "z")]
    );
}

#[test]
fn insert_replaces_the_value_of_a_key() {
    let mut m = FirebaseMap::new();
    m.insert("a", &1u8);
    m.insert("b", &2u8);
    m.insert("a", &3u8);
    assert_eq!(entries(m), vec![pair("a", "3"), pair("b", "2")]);
}

#[test]
fn map_is_its_own_projection() {
    let mut m = FirebaseMap::new();
    m.insert("k", &"v".to_string());
    let copy = m.as_map();
    m.insert("k", &"w".to_string());
    assert_eq!(entries(copy.clone()), vec![pair("k", "v")]);
    assert_eq!(entries(copy.duplicate()), vec![pair("k", "v")]);
    assert_eq!(entries(m), vec![pair("k", "w")]);
}

#[test]
fn map_as_json_object_of_strings() {
    let mut m = FirebaseMap::new();
    m.insert("n", &15i64);
    m.insert("k", &"v".to_string());
    let text = m.to_json().encode().unwrap();
    let value: serde_json::Value = serde_json::from_slice(&text).unwrap();
    let expected: serde_json::Value = serde_json::from_str(r#"{"k":"v","n":"15"}"#).unwrap();
    assert_eq!(value, expected);
    let empty: serde_json::Value =
        serde_json::from_slice(&FirebaseMap::new().to_json().encode().unwrap()).unwrap();
    assert_eq!(empty, serde_json::from_str::<serde_json::Value>("{}").unwrap());
}
