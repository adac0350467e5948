use graph_oauth::error::AuthError;
use graph_oauth::id_token::IdToken;
use graph_oauth::token::MsalToken;

pub const ACCESS_TOKEN_INT: &str = r#"{
    "access_token": "fasdfasdfasfdasdfasfsdf",
    "token_type": "Bearer",
    "expires_in": 65874,
    "scope": null,
    "refresh_token": null,
    "user_id": "santa@north.pole.com",
    "id_token": "789aasdf-asdf",
    "state": null,
    "timestamp": "2020-10-27T16:31:38.788098400Z"
}"#;

pub const ACCESS_TOKEN_STRING: &str = r#"{
    "access_token": "fasdfasdfasfdasdfasfsdf",
    "token_type": "Bearer",
    "expires_in": "65874",
    "scope": null,
    "refresh_token": null,
    "user_id": "helpers@north.pole.com",
    "id_token": "789aasdf-asdf",
    "state": null,
    "timestamp": "2020-10-27T16:31:38.788098400Z"
}"#;

#[test]
pub fn test_deserialize() {
    let _token: MsalToken = MsalToken::from_json(ACCESS_TOKEN_INT).unwrap();
    let _token: MsalToken = MsalToken::from_json(ACCESS_TOKEN_STRING).unwrap();
}

#[test]
fn numeric_and_text_expires_in_agree() {
    let from_number = MsalToken::from_json(ACCESS_TOKEN_INT).unwrap();
    let from_text = MsalToken::from_json(ACCESS_TOKEN_STRING).unwrap();
    assert_eq!(from_number.expires_in, from_text.expires_in);
    assert_eq!(from_number.expires_in, 65874);
}

#[test]
fn deserialized_token_fields_carry_over() {
    let token = MsalToken::from_json(ACCESS_TOKEN_INT).unwrap();
    assert_eq!(token.access_token, "fasdfasdfasfdasdfasfsdf");
    assert_eq!(token.token_type, "Bearer");
    assert_eq!(token.user_id, Some("santa@north.pole.com".to_string()));
    assert_eq!(token.id_token, Some("789aasdf-asdf".to_string()));
    assert_eq!(token.refresh_token, None);
    assert!(token.scope.is_empty());
    let ts = token.timestamp.unwrap();
    assert_eq!(token.expires_on, Some(ts + 65874));
    assert!(token
        .additional_fields
        .iter()
        .any(|(k, _)| k == "timestamp"));
}

#[test]
fn unreadable_payload_is_a_deserialization_error() {
    match MsalToken::from_json("this is not json") {
        Err(AuthError::Deserialization { .. }) => {}
        Err(other) => panic!("expected a deserialization error, got {other:?}"),
        Ok(_) => panic!("expected a deserialization error, got a token"),
    }
    match MsalToken::from_json(r#"{"token_type":"Bearer","expires_in":5}"#) {
        Err(AuthError::Deserialization { reason }) => {
            assert!(reason.contains("access_token"));
        }
        Err(other) => panic!("expected a deserialization error, got {other:?}"),
        Ok(_) => panic!("expected a deserialization error, got a token"),
    }
}

#[test]
fn negative_text_lifetime_is_read_exactly() {
    let token = MsalToken::from_json(
        r#"{"access_token":"a","token_type":"Bearer","expires_in":"-5"}"#,
    )
    .unwrap();
    assert_eq!(token.expires_in, -5);
    let ts = token.timestamp.unwrap();
    assert_eq!(token.expires_on, Some(ts - 5));
}

#[test]
fn non_numeric_text_lifetime_is_an_error() {
    match MsalToken::from_json(
        r#"{"access_token":"a","token_type":"Bearer","expires_in":"soon"}"#,
    ) {
        Err(AuthError::Deserialization { .. }) => {}
        Err(other) => panic!("expected a deserialization error, got {other:?}"),
        Ok(_) => panic!("expected a deserialization error, got a token"),
    }
}

#[test]
fn scope_string_splits_on_spaces() {
    let token = MsalToken::from_json(
        r#"{"access_token":"a","token_type":"Bearer","expires_in":5,"scope":"User.Read Files.Read"}"#,
    )
    .unwrap();
    assert_eq!(token.scope, vec!["User.Read".to_string(), "Files.Read".to_string()]);
}

#[test]
fn expiry_is_issuance_plus_lifetime() {
    let token = MsalToken::new("Bearer", 1, "token", Vec::new());
    let t = token.timestamp.unwrap();
    assert!(!token.is_expired_at(t));
    assert!(token.is_expired_at(t + 2));
    assert!(!token.is_expired());

    let token = MsalToken::new("Bearer", 8, "token", Vec::new());
    let t = token.timestamp.unwrap();
    assert!(!token.is_expired_at(t + 4));
    assert!(token.is_expired_at(t + 9));
}

#[test]
fn with_expires_in_recomputes_expiry() {
    let mut token = MsalToken::default();
    assert_eq!(token.expires_on, Some(0));
    assert!(token.is_expired());
    token.with_expires_in(86999);
    let ts = token.timestamp.unwrap();
    assert_eq!(token.expires_on, Some(ts + 86999));
    assert!(!token.is_expired());
}

#[test]
fn elapsed_is_the_whole_lifetime() {
    let token = MsalToken::new("Bearer", 3600, "token", Vec::new());
    assert_eq!(token.elapsed(), Some(3600));
}

#[test]
fn debug_text_redacts_secrets_by_default() {
    let mut token = MsalToken::new("Bearer", 10, "secret-access", Vec::new());
    token.with_refresh_token("secret-refresh");
    let rendered = token.debug_text();
    assert!(rendered.contains("[REDACTED]"));
    assert!(!rendered.contains("secret-access"));
    assert!(!rendered.contains("secret-refresh"));
    token.enable_pii_logging(true);
    let verbose = token.debug_text();
    assert!(verbose.contains("secret-access"));
}

#[test]
fn id_token_reads_a_form_fragment() {
    let token = IdToken::from_text("code=abc&id_token=xyz&state=s1&session_state=s2&extra=1")
        .unwrap();
    assert_eq!(token.get_code(), Some("abc".to_string()));
    assert_eq!(token.get_id_token(), "xyz");
    assert_eq!(token.get_state(), Some("s1".to_string()));
    assert_eq!(token.get_session_state(), Some("s2".to_string()));
    assert_eq!(
        token.get_additional_fields(),
        &vec![("extra".to_string(), "1".to_string())]
    );
}

#[test]
fn id_token_decodes_percent_escapes() {
    let token = IdToken::from_text("id_token=a%20b%2Bc&code=x+y").unwrap();
    assert_eq!(token.get_id_token(), "a b+c");
    assert_eq!(token.get_code(), Some("x y".to_string()));
}

#[test]
fn id_token_reads_a_json_object() {
    let token = IdToken::from_text(r#"{"id_token":"xyz","code":"abc","state":"s1"}"#).unwrap();
    assert_eq!(token.get_id_token(), "xyz");
    assert_eq!(token.get_code(), Some("abc".to_string()));
    assert_eq!(token.get_state(), Some("s1".to_string()));
    assert_eq!(token.get_session_state(), None);
}

#[test]
fn id_token_setters_round_trip() {
    let mut token = IdToken::new("idt", "code", "state", "session");
    assert_eq!(token.get_id_token(), "idt");
    token.id_token("idt2");
    token.code("code2");
    assert_eq!(token.get_id_token(), "idt2");
    assert_eq!(token.get_code(), Some("code2".to_string()));
    let rendered = token.debug_text();
    assert!(rendered.contains("[REDACTED]"));
    assert!(!rendered.contains("idt2"));
}

#[test]
fn parse_id_token_reads_the_stored_string() {
    let mut token = MsalToken::new("Bearer", 10, "a", Vec::new());
    assert!(token.parse_id_token().is_none());
    token.set_id_token("id_token=xyz&code=abc");
    let parsed = token.parse_id_token().unwrap().unwrap();
    assert_eq!(parsed.get_id_token(), "xyz");
}
