use iracing_api::json::{DecodeError, FieldName, JsonField};
use iracing_api::model::auth::{
    AuthError, AuthErrorKind, AuthFailureBody, AuthFields, AuthRequestBody, AuthResponse,
    AuthSuccessBody,
};

const SUCCESS: &str = r#"{
    "authcode": "abc123",
    "autoLoginSeries": null,
    "autoLoginToken": "tok",
    "custId": 42,
    "email": "driver@example.com",
    "ssoCookieDomain": ".iracing.com",
    "ssoCookieName": "irsso_membersv2",
    "ssoCookiePath": "/",
    "ssoCookieValue": "SECRET-REDACTED"
}"#;

const FAILURE: &str = r#"{
    "authcode": 0,
    "inactive": false,
    "message": "Invalid email address or password. Please try again.",
    "verificationRequired": false
}"#;

fn document(text: &str) -> serde_json::Value {
    serde_json::from_str(text).unwrap()
}

fn success(text: &str) -> AuthSuccessBody {
    match AuthResponse::from_json(document(text)) {
        Ok(AuthResponse::Success(body)) => body,
        other => panic!("not a success reply: {:?}", other),
    }
}

fn failure(text: &str) -> AuthFailureBody {
    match AuthResponse::from_json(document(text)) {
        Ok(AuthResponse::Failure(body)) => body,
        other => panic!("not a failure reply: {:?}", other),
    }
}

fn decode_error(text: &str) -> DecodeError {
    match AuthResponse::from_json(document(text)) {
        Err(e) => e,
        other => panic!("read as a reply: {:?}", other),
    }
}

fn absent() -> AuthFields {
    AuthFields {
        authcode: JsonField::Missing,
        auto_login_series: JsonField::Missing,
        auto_login_token: JsonField::Missing,
        cust_id: JsonField::Missing,
        email: JsonField::Missing,
        sso_cookie_domain: JsonField::Missing,
        sso_cookie_name: JsonField::Missing,
        sso_cookie_path: JsonField::Missing,
        sso_cookie_value: JsonField::Missing,
        message: JsonField::Missing,
        inactive: JsonField::Missing,
        verification_required: JsonField::Missing,
    }
}

fn text(s: &str) -> JsonField {
    JsonField::Text(s.to_string())
}

#[test]
fn a_string_authcode_makes_a_success_reply() {
    let body = success(SUCCESS);
    assert_eq!(body.auth_code, "abc123");
    assert_eq!(body.auto_login_series, None);
    assert_eq!(body.auto_login_token, Some("tok".to_string()));
    assert_eq!(body.cust_id, 42);
    assert_eq!(body.email, "driver@example.com");
    assert_eq!(body.sso_cookie_domain, ".iracing.com");
    assert_eq!(body.sso_cookie_name, "irsso_membersv2");
    assert_eq!(body.sso_cookie_path, "/");
    assert_eq!(body.sso_cookie_value, "SECRET-REDACTED");
}

#[test]
fn a_numeric_authcode_makes_a_failure_reply() {
    let body = failure(FAILURE);
    assert_eq!(body.authcode, 0);
    assert_eq!(
        body.message,
        "Invalid email address or password. Please try again."
    );
    assert!(!body.inactive);
    assert!(!body.verification_required);
}

#[test]
fn a_failure_reply_keeps_its_code_and_flags() {
    let body = failure(
        r#"{"authcode": 7, "message": "m", "inactive": true, "verificationRequired": true, "extra": [1, 2]}"#,
    );
    assert_eq!(body.authcode, 7);
    assert_eq!(body.message, "m");
    assert!(body.inactive);
    assert!(body.verification_required);
}

#[test]
fn an_absent_authcode_is_a_decode_error() {
    assert_eq!(
        decode_error(r#"{"custId": 42, "message": "hello"}"#),
        DecodeError::MissingField(FieldName::AuthCode)
    );
    assert_eq!(decode_error("{}"), DecodeError::MissingField(FieldName::AuthCode));
}

#[test]
fn an_authcode_of_another_type_is_a_decode_error() {
    let wrong = DecodeError::WrongType(FieldName::AuthCode);
    assert_eq!(decode_error(r#"{"authcode": null}"#), wrong);
    assert_eq!(decode_error(r#"{"authcode": true}"#), wrong);
    assert_eq!(decode_error(r#"{"authcode": false}"#), wrong);
    assert_eq!(decode_error(r#"{"authcode": []}"#), wrong);
    assert_eq!(decode_error(r#"{"authcode": ["abc123"]}"#), wrong);
    assert_eq!(decode_error(r#"{"authcode": {}}"#), wrong);
    assert_eq!(decode_error(r#"{"authcode": {"authcode": "abc123"}}"#), wrong);
}

#[test]
fn a_document_that_is_no_object_has_no_authcode() {
    let missing = DecodeError::MissingField(FieldName::AuthCode);
    assert_eq!(decode_error("null"), missing);
    assert_eq!(decode_error("true"), missing);
    assert_eq!(decode_error("12"), missing);
    assert_eq!(decode_error(r#""authcode""#), missing);
    assert_eq!(decode_error(r#"["authcode"]"#), missing);
    assert_eq!(decode_error(r#"[{"authcode": "abc123"}]"#), missing);
}

#[test]
fn classification_is_the_same_on_every_call() {
    for _ in 0..3 {
        assert_eq!(success(SUCCESS).cust_id, 42);
        assert_eq!(failure(FAILURE).authcode, 0);
        assert_eq!(
            decode_error(r#"{"authcode": null}"#),
            DecodeError::WrongType(FieldName::AuthCode)
        );
    }
}

#[test]
fn a_success_reply_must_have_its_members() {
    assert_eq!(
        decode_error(r#"{"authcode": "abc123"}"#),
        DecodeError::MissingField(FieldName::CustId)
    );
    assert_eq!(
        decode_error(r#"{"authcode": "abc123", "custId": 42}"#),
        DecodeError::MissingField(FieldName::Email)
    );
    assert_eq!(
        decode_error(r#"{"authcode": "abc123", "custId": 42, "email": "e"}"#),
        DecodeError::MissingField(FieldName::SsoCookieDomain)
    );
    assert_eq!(
        decode_error(r#"{"authcode": "abc123", "custId": 42, "email": "e", "ssoCookieDomain": "d"}"#),
        DecodeError::MissingField(FieldName::SsoCookieName)
    );
    assert_eq!(
        decode_error(
            r#"{"authcode": "abc123", "custId": 42, "email": "e", "ssoCookieDomain": "d", "ssoCookieName": "n"}"#
        ),
        DecodeError::MissingField(FieldName::SsoCookiePath)
    );
    assert_eq!(
        decode_error(
            r#"{"authcode": "abc123", "custId": 42, "email": "e", "ssoCookieDomain": "d", "ssoCookieName": "n", "ssoCookiePath": "/"}"#
        ),
        DecodeError::MissingField(FieldName::SsoCookieValue)
    );
    let body = success(
        r#"{"authcode": "abc123", "custId": 42, "email": "e", "ssoCookieDomain": "d", "ssoCookieName": "n", "ssoCookiePath": "/", "ssoCookieValue": "v"}"#,
    );
    assert_eq!(body.auto_login_series, None);
    assert_eq!(body.auto_login_token, None);
    assert_eq!(body.sso_cookie_value, "v");
}

#[test]
fn a_success_reply_must_have_members_of_the_right_type() {
    let with = |member: &str| {
        format!(
            r#"{{"authcode": "a", "custId": 1, "email": "e", "ssoCookieDomain": "d", "ssoCookieName": "n", "ssoCookiePath": "p", "ssoCookieValue": "v", {}}}"#,
            member
        )
    };
    assert_eq!(success(&with(r#""autoLoginSeries": "s""#)).auto_login_series, Some("s".to_string()));
    assert_eq!(success(&with(r#""autoLoginSeries": null"#)).auto_login_series, None);
    assert_eq!(
        decode_error(&with(r#""autoLoginSeries": 5"#)),
        DecodeError::WrongType(FieldName::AutoLoginSeries)
    );
    assert_eq!(
        decode_error(&with(r#""autoLoginToken": false"#)),
        DecodeError::WrongType(FieldName::AutoLoginToken)
    );
    assert_eq!(
        decode_error(r#"{"authcode": "a", "custId": "42"}"#),
        DecodeError::WrongType(FieldName::CustId)
    );
    assert_eq!(
        decode_error(r#"{"authcode": "a", "custId": 1, "email": null}"#),
        DecodeError::WrongType(FieldName::Email)
    );
}

#[test]
fn a_customer_id_must_fit_in_32_bits() {
    let with = |cust_id: &str| {
        format!(
            r#"{{"authcode": "a", "custId": {}, "email": "e", "ssoCookieDomain": "d", "ssoCookieName": "n", "ssoCookiePath": "p", "ssoCookieValue": "v"}}"#,
            cust_id
        )
    };
    assert_eq!(success(&with("0")).cust_id, 0);
    assert_eq!(success(&with("4294967295")).cust_id, 4294967295);
    let wrong = DecodeError::WrongType(FieldName::CustId);
    assert_eq!(decode_error(&with("4294967296")), wrong);
    assert_eq!(decode_error(&with("18446744073709551615")), wrong);
    assert_eq!(decode_error(&with("-1")), wrong);
    assert_eq!(decode_error(&with("42.0")), wrong);
    assert_eq!(decode_error(&with("4.2e1")), wrong);
}

#[test]
fn a_failure_reply_must_have_its_members() {
    assert_eq!(
        decode_error(r#"{"authcode": 0}"#),
        DecodeError::MissingField(FieldName::Message)
    );
    assert_eq!(
        decode_error(r#"{"authcode": 0, "message": "m"}"#),
        DecodeError::MissingField(FieldName::Inactive)
    );
    assert_eq!(
        decode_error(r#"{"authcode": 0, "message": "m", "inactive": false}"#),
        DecodeError::MissingField(FieldName::VerificationRequired)
    );
    assert_eq!(
        decode_error(r#"{"authcode": 0, "message": 3, "inactive": false, "verificationRequired": true}"#),
        DecodeError::WrongType(FieldName::Message)
    );
    assert_eq!(
        decode_error(r#"{"authcode": 0, "message": "m", "inactive": 0, "verificationRequired": true}"#),
        DecodeError::WrongType(FieldName::Inactive)
    );
    assert_eq!(
        decode_error(r#"{"authcode": 0, "message": "m", "inactive": false, "verificationRequired": "yes"}"#),
        DecodeError::WrongType(FieldName::VerificationRequired)
    );
}

#[test]
fn a_failure_code_must_be_an_unsigned_32_bit_integer() {
    let with = |code: &str| {
        format!(
            r#"{{"authcode": {}, "message": "m", "inactive": false, "verificationRequired": false}}"#,
            code
        )
    };
    assert_eq!(failure(&with("4294967295")).authcode, 4294967295);
    let wrong = DecodeError::WrongType(FieldName::AuthCode);
    assert_eq!(decode_error(&with("4294967296")), wrong);
    assert_eq!(decode_error(&with("-3")), wrong);
    assert_eq!(decode_error(&with("0.5")), wrong);
}

#[test]
fn replies_are_read_from_their_bytes() {
    match AuthResponse::from_body(SUCCESS.as_bytes()) {
        Ok(AuthResponse::Success(body)) => assert_eq!(body.cust_id, 42),
        other => panic!("not a success reply: {:?}", other),
    }
    match AuthResponse::from_body(FAILURE.as_bytes()) {
        Ok(AuthResponse::Failure(body)) => assert_eq!(body.authcode, 0),
        other => panic!("not a failure reply: {:?}", other),
    }
}

#[test]
fn bytes_that_are_no_json_are_a_decode_error() {
    let bodies: Vec<&[u8]> = vec![
        b"",
        b"   ",
        b"<html>Service unavailable</html>",
        b"{\"authcode\": \"abc123\"",
        b"{\"authcode\": \"abc123\"} trailing",
        b"{authcode: 1}",
        b"\xff\xfe",
    ];
    for body in bodies {
        assert!(matches!(
            AuthResponse::from_body(body),
            Err(DecodeError::InvalidJson)
        ));
    }
}

#[test]
fn members_are_classified_without_a_document() {
    let mut fields = absent();
    fields.authcode = text("abc123");
    fields.cust_id = JsonField::Number(Some(42));
    fields.email = text("e");
    fields.sso_cookie_domain = text("d");
    fields.sso_cookie_name = text("n");
    fields.sso_cookie_path = text("p");
    fields.sso_cookie_value = text("v");
    fields.auto_login_series = JsonField::Null;
    match AuthResponse::from_fields(fields) {
        Ok(AuthResponse::Success(body)) => {
            assert_eq!(body.auth_code, "abc123");
            assert_eq!(body.cust_id, 42);
            assert_eq!(body.auto_login_series, None);
            assert_eq!(body.auto_login_token, None);
        }
        other => panic!("not a success reply: {:?}", other),
    }

    let mut fields = absent();
    fields.authcode = JsonField::Number(Some(0));
    fields.message = text("Verification required.");
    fields.inactive = JsonField::Bool(false);
    fields.verification_required = JsonField::Bool(true);
    match AuthResponse::from_fields(fields) {
        Ok(AuthResponse::Failure(body)) => {
            assert_eq!(body.message, "Verification required.");
            assert!(body.verification_required);
        }
        other => panic!("not a failure reply: {:?}", other),
    }

    let mut fields = absent();
    fields.authcode = JsonField::Number(None);
    fields.message = text("m");
    fields.inactive = JsonField::Bool(false);
    fields.verification_required = JsonField::Bool(false);
    assert!(matches!(
        AuthResponse::from_fields(fields),
        Err(DecodeError::WrongType(FieldName::AuthCode))
    ));

    for authcode in [
        JsonField::Null,
        JsonField::Bool(true),
        JsonField::Array,
        JsonField::Object,
    ] {
        let mut fields = absent();
        fields.authcode = authcode;
        fields.message = text("m");
        fields.cust_id = JsonField::Number(Some(1));
        assert!(matches!(
            AuthResponse::from_fields(fields),
            Err(DecodeError::WrongType(FieldName::AuthCode))
        ));
    }
    assert!(matches!(
        AuthResponse::from_fields(absent()),
        Err(DecodeError::MissingField(FieldName::AuthCode))
    ));
}

#[test]
fn the_members_of_a_document_are_read_as_they_stand() {
    let fields = AuthFields::read(&document(
        r#"{"authcode": "a", "autoLoginSeries": null, "custId": 42, "email": -1, "ssoCookieDomain": 1.5, "ssoCookieName": [], "ssoCookiePath": {}, "inactive": true, "message": "m"}"#,
    ));
    assert!(matches!(fields.authcode, JsonField::Text(s) if s == "a"));
    assert!(matches!(fields.auto_login_series, JsonField::Null));
    assert!(matches!(fields.auto_login_token, JsonField::Missing));
    assert!(matches!(fields.cust_id, JsonField::Number(Some(42))));
    assert!(matches!(fields.email, JsonField::Number(None)));
    assert!(matches!(fields.sso_cookie_domain, JsonField::Number(None)));
    assert!(matches!(fields.sso_cookie_name, JsonField::Array));
    assert!(matches!(fields.sso_cookie_path, JsonField::Object));
    assert!(matches!(fields.sso_cookie_value, JsonField::Missing));
    assert!(matches!(fields.inactive, JsonField::Bool(true)));
    assert!(matches!(fields.message, JsonField::Text(s) if s == "m"));
    assert!(matches!(fields.verification_required, JsonField::Missing));
}

#[test]
fn single_members_are_read_by_their_type() {
    let name = FieldName::Message;
    assert_eq!(text("m").into_text(name), Ok("m".to_string()));
    assert_eq!(JsonField::Missing.into_text(name), Err(DecodeError::MissingField(name)));
    assert_eq!(JsonField::Null.into_text(name), Err(DecodeError::WrongType(name)));
    assert_eq!(text("m").into_optional_text(name), Ok(Some("m".to_string())));
    assert_eq!(JsonField::Missing.into_optional_text(name), Ok(None));
    assert_eq!(JsonField::Null.into_optional_text(name), Ok(None));
    assert_eq!(
        JsonField::Bool(true).into_optional_text(name),
        Err(DecodeError::WrongType(name))
    );
    assert_eq!(JsonField::Number(Some(7)).into_u32(name), Ok(7));
    assert_eq!(JsonField::Number(Some(4294967295)).into_u32(name), Ok(4294967295));
    assert_eq!(
        JsonField::Number(Some(4294967296)).into_u32(name),
        Err(DecodeError::WrongType(name))
    );
    assert_eq!(JsonField::Number(None).into_u32(name), Err(DecodeError::WrongType(name)));
    assert_eq!(JsonField::Missing.into_u32(name), Err(DecodeError::MissingField(name)));
    assert_eq!(text("7").into_u32(name), Err(DecodeError::WrongType(name)));
    assert_eq!(JsonField::Bool(false).into_bool(name), Ok(false));
    assert_eq!(JsonField::Bool(true).into_bool(name), Ok(true));
    assert_eq!(JsonField::Missing.into_bool(name), Err(DecodeError::MissingField(name)));
    assert_eq!(JsonField::Number(Some(1)).into_bool(name), Err(DecodeError::WrongType(name)));
}

#[test]
fn field_names_have_their_keys() {
    assert_eq!(FieldName::AuthCode.key(), "authcode");
    assert_eq!(FieldName::AutoLoginSeries.key(), "autoLoginSeries");
    assert_eq!(FieldName::AutoLoginToken.key(), "autoLoginToken");
    assert_eq!(FieldName::CustId.key(), "custId");
    assert_eq!(FieldName::Email.key(), "email");
    assert_eq!(FieldName::SsoCookieDomain.key(), "ssoCookieDomain");
    assert_eq!(FieldName::SsoCookieName.key(), "ssoCookieName");
    assert_eq!(FieldName::SsoCookiePath.key(), "ssoCookiePath");
    assert_eq!(FieldName::SsoCookieValue.key(), "ssoCookieValue");
    assert_eq!(FieldName::Message.key(), "message");
    assert_eq!(FieldName::Inactive.key(), "inactive");
    assert_eq!(FieldName::VerificationRequired.key(), "verificationRequired");
    assert_eq!(FieldName::Link.key(), "link");
}

#[test]
fn known_messages_name_their_cause() {
    assert!(matches!(
        AuthErrorKind::from_message("Invalid email address or password. Please try again."),
        AuthErrorKind::InvalidCredentials
    ));
    assert!(matches!(
        AuthErrorKind::from_message("Missing auth identifier."),
        AuthErrorKind::MissingAuthIdentifier
    ));
    assert!(matches!(
        AuthErrorKind::from_message("Verification required."),
        AuthErrorKind::VerificationRequired
    ));
}

#[test]
fn an_unknown_message_is_kept_as_it_is() {
    let messages = [
        "",
        "Something else went wrong",
        "verification required.",
        "Verification required",
        "Verification required. ",
        " Missing auth identifier.",
        "Invalid email address or password.",
        "Ung\u{fc}ltige Anmeldung \u{1f3ce}",
    ];
    for message in messages {
        match AuthErrorKind::from_message(message) {
            AuthErrorKind::Unknown(kept) => assert_eq!(kept, message),
            other => panic!("{:?} was read as {:?}", message, other),
        }
    }
}

#[test]
fn causes_are_put_in_words() {
    assert_eq!(
        AuthErrorKind::InvalidCredentials.to_string(),
        "Invalid email address or password"
    );
    assert_eq!(
        AuthErrorKind::MissingAuthIdentifier.to_string(),
        "Missing auth identifier"
    );
    assert_eq!(
        AuthErrorKind::VerificationRequired.to_string(),
        "Verification required"
    );
    assert_eq!(
        AuthErrorKind::Unknown("Server on fire".to_string()).to_string(),
        "Unkown authentication error: Server on fire"
    );
}

#[test]
fn an_auth_error_holds_the_reply_and_its_cause() {
    let error = AuthError::from_failure(failure(FAILURE));
    assert!(matches!(error.kind, AuthErrorKind::InvalidCredentials));
    assert_eq!(
        error.body.message,
        "Invalid email address or password. Please try again."
    );
    assert_eq!(
        error.to_string(),
        "Authentication failed: Invalid email address or password"
    );

    let error = AuthError::from_failure(AuthFailureBody {
        authcode: 3,
        message: "Try later".to_string(),
        inactive: true,
        verification_required: false,
    });
    assert!(matches!(&error.kind, AuthErrorKind::Unknown(kept) if kept == "Try later"));
    assert_eq!(error.body.authcode, 3);
    assert!(error.body.inactive);
    assert_eq!(
        error.to_string(),
        "Authentication failed: Unkown authentication error: Try later"
    );
}

#[test]
fn credentials_are_held_as_given() {
    let body = AuthRequestBody::new("driver@example.com", "hunter2");
    assert_eq!(body.email(), "driver@example.com");
    assert_eq!(body.password(), "hunter2");
    let copy: iracing_api::auth::AuthRequestBody = body.clone();
    assert_eq!(copy.email(), "driver@example.com");
    assert_eq!(copy.password(), "hunter2");
    let reply: iracing_api::auth::AuthResponseBody = success(SUCCESS);
    assert_eq!(reply.cust_id, 42);
}
