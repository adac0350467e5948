use graph_oauth::error::AuthError;
use graph_oauth::grants::{GrantRequest, GrantType};
use graph_oauth::params::OAuthParameter;
use graph_oauth::serializer::OAuthSerializer;

#[test]
fn insert_get_round_trip() {
    let mut oauth = OAuthSerializer::new();
    oauth.client_id("client_id");
    assert!(oauth.contains(OAuthParameter::ClientId));
    assert_eq!(oauth.get(OAuthParameter::ClientId), Some("client_id".to_string()));
    oauth.state("1234");
    assert_eq!(oauth.get(OAuthParameter::State), Some("1234".to_string()));
    assert_eq!(oauth.get(OAuthParameter::ClientId), Some("client_id".to_string()));
}

#[test]
fn remove_clears_a_value() {
    let mut oauth = OAuthSerializer::new();
    oauth.client_id("client_id");
    assert!(oauth.contains(OAuthParameter::ClientId));
    oauth.remove(OAuthParameter::ClientId);
    assert!(!oauth.contains(OAuthParameter::ClientId));
    assert_eq!(oauth.get(OAuthParameter::ClientId), None);
}

#[test]
fn contains_key_goes_by_alias() {
    let mut oauth = OAuthSerializer::new();
    oauth.authorization_code("abc123");
    assert!(oauth.contains_key("code"));
    assert!(!oauth.contains_key("authorization_code"));
    assert!(!oauth.contains_key("no_such_parameter"));
}

#[test]
fn url_typed_parameters_are_validated_at_insert() {
    let mut oauth = OAuthSerializer::new();
    let bad = oauth.authorization_url("not an absolute url");
    match bad {
        Err(AuthError::InvalidUrl { alias }) => assert_eq!(alias, "authorization_url"),
        other => panic!("expected an invalid-url error, got {other:?}"),
    }
    assert!(!oauth.contains(OAuthParameter::AuthorizationUrl));
    oauth.authorization_url("https://example.com/authorize").unwrap();
    assert_eq!(
        oauth.get(OAuthParameter::AuthorizationUrl),
        Some("https://example.com/authorize".to_string())
    );
}

#[test]
fn entry_with_never_overwrites() {
    let mut oauth = OAuthSerializer::new();
    let first = oauth.entry_with(OAuthParameter::State, "first").unwrap();
    assert_eq!(first, "first");
    let second = oauth.entry_with(OAuthParameter::State, "second").unwrap();
    assert_eq!(second, "first");
    assert_eq!(oauth.get(OAuthParameter::State), Some("first".to_string()));
}

#[test]
fn scopes_deduplicate_and_join() {
    let mut oauth = OAuthSerializer::new();
    oauth.add_scope("Files.Read");
    oauth.add_scope("Files.ReadWrite");
    oauth.add_scope("Files.Read");
    assert_eq!(oauth.join_scopes(" "), "Files.Read Files.ReadWrite");
    assert!(oauth.contains_scope("Files.Read"));
    oauth.remove_scope("Files.Read");
    assert!(!oauth.contains_scope("Files.Read"));
    assert_eq!(oauth.join_scopes(" "), "Files.ReadWrite");
    oauth.clear_scopes();
    assert!(oauth.get_scopes().is_empty());
}

#[test]
fn extend_scopes_keeps_order_and_uniqueness() {
    let mut oauth = OAuthSerializer::new();
    oauth.add_scope("read");
    oauth.extend_scopes(&vec!["write".to_string(), "read".to_string()]);
    assert_eq!(oauth.join_scopes(" "), "read write");
}

#[test]
fn tenant_id_derives_all_three_endpoints() {
    let mut oauth = OAuthSerializer::new();
    oauth.tenant_id("tenant_id").unwrap();
    assert_eq!(
        oauth.get(OAuthParameter::AuthorizationUrl),
        Some("https://login.microsoftonline.com/tenant_id/oauth2/v2.0/authorize".to_string())
    );
    assert_eq!(
        oauth.get(OAuthParameter::AccessTokenUrl),
        Some("https://login.microsoftonline.com/tenant_id/oauth2/v2.0/token".to_string())
    );
    assert_eq!(
        oauth.get(OAuthParameter::RefreshTokenUrl),
        Some("https://login.microsoftonline.com/tenant_id/oauth2/v2.0/token".to_string())
    );
}

#[test]
fn authorization_url_matches_declared_order() {
    let mut oauth = OAuthSerializer::new();
    oauth.client_id("abc");
    oauth.redirect_uri("https://localhost:8080");
    oauth.add_scope("read");
    oauth.add_scope("write");
    oauth.tenant_id("common").unwrap();
    let mut grant = oauth.build().authorization_code_grant();
    let url = grant.authorization_url().unwrap();
    assert_eq!(
        url,
        "https://login.microsoftonline.com/common/oauth2/v2.0/authorize?client_id=abc&redirect_uri=https%3A%2F%2Flocalhost%3A8080&response_type=code&response_mode=query&scope=read%20write"
    );
}

#[test]
fn optional_fields_appear_once_after_required() {
    let mut oauth = OAuthSerializer::new();
    oauth.client_id("abc");
    oauth.redirect_uri("https://localhost:8080");
    oauth.add_scope("read");
    oauth.state("xyz");
    oauth.tenant_id("common").unwrap();
    let mut grant = oauth.build().authorization_code_grant();
    let url = grant.authorization_url().unwrap();
    assert_eq!(
        url,
        "https://login.microsoftonline.com/common/oauth2/v2.0/authorize?client_id=abc&redirect_uri=https%3A%2F%2Flocalhost%3A8080&response_type=code&response_mode=query&scope=read&state=xyz"
    );
    assert_eq!(url.matches("state=").count(), 1);
}

#[test]
fn empty_scope_set_is_a_missing_scope() {
    let mut oauth = OAuthSerializer::new();
    oauth.client_id("abc");
    oauth.redirect_uri("https://localhost:8080");
    oauth.tenant_id("common").unwrap();
    let mut grant = oauth.build().authorization_code_grant();
    match grant.authorization_url() {
        Err(AuthError::RequiredParameterMissing { alias, .. }) => assert_eq!(alias, "scope"),
        other => panic!("expected a missing-scope error, got {other:?}"),
    }
}

#[test]
fn token_flow_rejects_token_endpoint_exchange() {
    let mut oauth = OAuthSerializer::new();
    oauth.client_id("abc");
    match oauth.encode_uri(GrantType::TokenFlow, GrantRequest::AccessToken) {
        Err(AuthError::GrantNotSupported { grant, request }) => {
            assert_eq!(grant, GrantType::TokenFlow);
            assert_eq!(request, GrantRequest::AccessToken);
        }
        other => panic!("expected a grant-not-supported error, got {other:?}"),
    }
}

#[test]
fn form_body_carries_refresh_token_fallback() {
    let mut oauth = OAuthSerializer::new();
    oauth.client_id("abc");
    oauth.client_secret("secret");
    oauth.tenant_id("common").unwrap();
    let mut token = graph_oauth::token::MsalToken::new("Bearer", 3600, "at", Vec::new());
    token.with_refresh_token("stored-refresh");
    oauth.access_token(token);
    assert_eq!(oauth.get_refresh_token().unwrap(), "stored-refresh");
    let mut grant = oauth.build().authorization_code_grant();
    let request = grant.refresh_token();
    let (uri, params) = request.into_result().unwrap();
    assert_eq!(uri, "https://login.microsoftonline.com/common/oauth2/v2.0/token");
    assert!(params.contains(&("refresh_token".to_string(), "stored-refresh".to_string())));
    assert!(params.contains(&("grant_type".to_string(), "refresh_token".to_string())));
}

#[test]
fn percent_encoding_keeps_the_form_alphabet() {
    let mut oauth = OAuthSerializer::new();
    oauth.client_id("A9*-._z");
    oauth.redirect_uri("https://localhost");
    oauth.add_scope("read");
    oauth.state("a*b~c &?");
    oauth.tenant_id("common").unwrap();
    let mut grant = oauth.build().authorization_code_grant();
    let url = grant.authorization_url().unwrap();
    assert!(url.contains("client_id=A9*-._z"));
    assert!(url.contains("state=a*b%7Ec%20%26%3F"));
}

#[test]
fn debug_text_redacts_sensitive_parameters() {
    let mut oauth = OAuthSerializer::new();
    oauth.client_secret("very-secret");
    oauth.response_mode("query");
    let rendered = oauth.debug_text();
    assert!(rendered.contains("client_secret: [REDACTED]"));
    assert!(!rendered.contains("very-secret"));
    assert!(rendered.contains("response_mode: query"));
}

#[test]
fn pkce_pair_is_generated_and_stored() {
    let mut oauth = OAuthSerializer::new();
    oauth.generate_sha256_challenge_and_verifier().unwrap();
    let verifier = oauth.get(OAuthParameter::CodeVerifier).unwrap();
    let challenge = oauth.get(OAuthParameter::CodeChallenge).unwrap();
    assert_eq!(oauth.get(OAuthParameter::CodeChallengeMethod), Some("S256".to_string()));
    assert_eq!(verifier.len(), 43);
    assert_eq!(challenge.len(), 43);
    assert_ne!(verifier, challenge);
}
