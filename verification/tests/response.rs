use firebae_cm::{read_response, Error, FcmError, FcmResponse, Json};

fn doc(text: &str) -> Json {
    Json::parse(text.as_bytes()).unwrap()
}

fn is_malformed(body: &str) -> bool {
    matches!(read_response(body.as_bytes()), Err(Error::JsonSerialize(_)))
}

#[test]
fn name_shape_parses_to_success() {
    for name in ["X", "", "projects/p/messages/1", "é\"\\"] {
        let text = serde_json::to_string(&serde_json::Value::String(name.to_string())).unwrap();
        let body = format!("{{\"name\":{}}}", text);
        assert_eq!(read_response(body.as_bytes()).unwrap(), name);
        match FcmResponse::from_json(&doc(&body)) {
            Some(FcmResponse::Success(s)) => assert_eq!(s, name),
            other => panic!("unexpected answer: {:?}", other),
        }
    }
}

#[test]
fn error_shape_parses_to_server_error() {
    for code in [0u16, 1, 400, 401, 65535] {
        let body = format!("{{\"error\":{{\"code\":{},\"message\":\"M\",\"status\":\"S\"}}}}", code);
        match read_response(body.as_bytes()) {
            Err(Error::FcmError(e)) => {
                assert_eq!(e.code, code);
                assert_eq!(e.message, "M");
                assert_eq!(e.status, "S");
            }
            other => panic!("unexpected outcome: {:?}", other),
        }
    }
}

#[test]
fn error_with_more_keys_is_read() {
    let body = r#"{"error":{"status":"INVALID_ARGUMENT","details":[{"a":1}],"message":"m","code":400}}"#;
    match FcmResponse::from_json(&doc(body)) {
        Some(FcmResponse::Error(e)) => {
            assert_eq!(e.code, 400);
            assert_eq!(e.status, "INVALID_ARGUMENT");
            assert_eq!(e.message, "m");
        }
        other => panic!("unexpected answer: {:?}", other),
    }
}

#[test]
fn bodies_that_are_no_json_are_malformed() {
    assert!(is_malformed(""));
    assert!(is_malformed("{"));
    assert!(is_malformed("not json"));
    assert!(is_malformed(r#"{"name":"x"} trailing"#));
    assert!(is_malformed("{\"name\":\"\u{0}\"}"));
}

#[test]
fn bodies_of_another_shape_are_malformed() {
    assert!(is_malformed("{}"));
    assert!(is_malformed("null"));
    assert!(is_malformed("[]"));
    assert!(is_malformed(r#""name""#));
    assert!(is_malformed(r#"{"name":1}"#));
    assert!(is_malformed(r#"{"name":null}"#));
    assert!(is_malformed(r#"{"other":"x"}"#));
    assert!(is_malformed(r#"{"name":"x","error":{"code":1,"message":"m","status":"s"}}"#));
    assert!(is_malformed(r#"{"name":"x","extra":1}"#));
    assert!(is_malformed(r#"{"error":"x"}"#));
    assert!(is_malformed(r#"{"error":{}}"#));
    assert!(is_malformed(r#"{"error":{"code":1,"message":"m"}}"#));
    assert!(is_malformed(r#"{"error":{"code":1,"status":"s"}}"#));
    assert!(is_malformed(r#"{"error":{"message":"m","status":"s"}}"#));
    assert!(is_malformed(r#"{"error":[401,"m","s"]}"#));
}

#[test]
fn codes_that_are_no_unsigned_16_bit_integers_are_malformed() {
    assert!(is_malformed(r#"{"error":{"code":65536,"message":"m","status":"s"}}"#));
    assert!(is_malformed(r#"{"error":{"code":-1,"message":"m","status":"s"}}"#));
    assert!(is_malformed(r#"{"error":{"code":401.0,"message":"m","status":"s"}}"#));
    assert!(is_malformed(r#"{"error":{"code":"401","message":"m","status":"s"}}"#));
    assert!(is_malformed(r#"{"error":{"code":18446744073709551616,"message":"m","status":"s"}}"#));
    assert!(is_malformed(r#"{"error":{"code":401,"message":5,"status":"s"}}"#));
    assert!(is_malformed(r#"{"error":{"code":401,"message":"m","status":null}}"#));
}

#[test]
fn error_from_json_reads_the_three_fields() {
    let e = FcmError::from_json(&doc(r#"{"code":7,"message":"m","status":"s","x":[]}"#)).unwrap();
    assert_eq!((e.code, e.message.as_str(), e.status.as_str()), (7, "m", "s"));
    assert!(FcmError::from_json(&doc("[]")).is_none());
    assert!(FcmError::from_json(&doc(r#"{"code":70000,"message":"m","status":"s"}"#)).is_none());
}

#[test]
fn into_result_hands_out_name_or_error() {
    assert_eq!(FcmResponse::Success("n".to_string()).into_result().unwrap(), "n");
    let e = FcmError { code: 404, message: "gone".to_string(), status: "NOT_FOUND".to_string() };
    match FcmResponse::Error(e).into_result() {
        Err(Error::FcmError(e)) => assert_eq!(e.code, 404),
        other => panic!("unexpected outcome: {:?}", other),
    }
}

#[test]
fn text_of_the_server_error() {
    let e = FcmError {
        code: 401,
        message: "Request had invalid authentication credentials.".to_string(),
        status: "UNAUTHENTICATED".to_string(),
    };
    assert_eq!(
        e.to_string(),
        "UNAUTHENTICATED (401): Request had invalid authentication credentials."
    );
    let zero = FcmError { code: 0, message: String::new(), status: String::new() };
    assert_eq!(zero.to_string(), " (0): ");
}

#[test]
fn text_of_each_error_is_that_of_its_cause() {
    assert_eq!(Error::Request("connection refused".to_string()).to_string(), "connection refused");
    assert_eq!(Error::JsonSerialize("EOF".to_string()).to_string(), "EOF");
    assert_eq!(Error::TimeFormatError("year".to_string()).to_string(), "year");
    let e = FcmError { code: 65535, message: "m".to_string(), status: "S".to_string() };
    assert_eq!(Error::FcmError(e).to_string(), "S (65535): m");
}
