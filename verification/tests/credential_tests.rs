use graph_oauth::authorization_code_authorization_url::AuthorizationCodeAuthorizationUrl;
use graph_oauth::authorization_code_credential::AuthorizationCodeCredential;
use graph_oauth::error::AuthError;
use graph_oauth::identity::{Authority, AzureCloudInstance};
use graph_oauth::token_flow_authorization_url::TokenFlowAuthorizationUrl;

#[test]
fn with_tenant_id_common() {
    let mut builder = AuthorizationCodeCredential::builder();
    builder.with_authority(Authority::TenantId("common".into()));
    let credential = builder.build();

    assert_eq!(credential.authority, Authority::TenantId("common".into()))
}

#[test]
fn with_tenant_id_adfs() {
    let mut builder = AuthorizationCodeCredential::builder();
    builder.with_authority(Authority::AzureDirectoryFederatedServices);
    let credential = builder.build();

    assert_eq!(credential.authority.as_ref(), "adfs");
}

#[test]
#[should_panic]
fn authorization_code_missing_required_value() {
    let mut credential_builder = AuthorizationCodeCredential::builder();
    credential_builder.with_redirect_uri("https://localhost:8080");
    credential_builder.with_client_id("client_id");
    credential_builder.with_client_secret("client_secret");
    credential_builder.with_scopes(&vec!["scope".to_string()]);
    credential_builder.with_tenant("tenant_id");
    let credential = credential_builder.build();
    let _ = credential.form().unwrap();
}

#[test]
#[should_panic]
fn required_value_missing_client_id() {
    let mut credential_builder = AuthorizationCodeCredential::builder();
    credential_builder.with_authorization_code("code");
    credential_builder.with_refresh_token("token");
    let credential = credential_builder.build();
    let _ = credential.form().unwrap();
}

#[test]
fn serialize_uri() {
    let mut builder = AuthorizationCodeAuthorizationUrl::builder();
    builder.with_redirect_uri("https::/localhost:8080");
    builder.with_client_id("client_id");
    builder.with_scopes(&vec!["read".to_string(), "write".to_string()]);
    let authorizer = builder.build();

    let url_result = authorizer.url();
    assert!(url_result.is_ok());
}

#[test]
fn code_and_refresh_token_are_mutually_exclusive() {
    let mut builder = AuthorizationCodeCredential::builder();
    builder.with_refresh_token("refresh");
    builder.with_authorization_code("code");
    builder.with_client_id("client_id");
    builder.with_client_secret("client_secret");
    let credential = builder.build();
    match credential.form() {
        Err(AuthError::RequiredParameterMissing { alias, hint }) => {
            assert_eq!(alias, "code or refresh_token");
            assert!(hint.unwrap().contains("mutually exclusive"));
        }
        other => panic!("expected the mutually-exclusive error, got {other:?}"),
    }
}

#[test]
fn code_exchange_form_is_exact() {
    let mut builder = AuthorizationCodeCredential::builder();
    builder.with_authorization_code("the-code");
    builder.with_client_id("id");
    builder.with_client_secret("secret");
    builder.with_redirect_uri("https://localhost:8080");
    builder.with_scopes(&vec!["read".to_string()]);
    let credential = builder.build();
    let form = credential.form().unwrap();
    assert_eq!(
        form,
        vec![
            ("client_id".to_string(), "id".to_string()),
            ("client_secret".to_string(), "secret".to_string()),
            ("redirect_uri".to_string(), "https://localhost:8080".to_string()),
            ("code".to_string(), "the-code".to_string()),
            ("grant_type".to_string(), "authorization_code".to_string()),
            ("scope".to_string(), "read".to_string()),
        ]
    );
}

#[test]
fn refresh_exchange_form_is_exact() {
    let mut builder = AuthorizationCodeCredential::builder();
    builder.with_refresh_token("the-refresh");
    builder.with_client_id("id");
    builder.with_client_secret("secret");
    let credential = builder.build();
    let form = credential.form().unwrap();
    assert_eq!(
        form,
        vec![
            ("client_id".to_string(), "id".to_string()),
            ("client_secret".to_string(), "secret".to_string()),
            ("refresh_token".to_string(), "the-refresh".to_string()),
            ("grant_type".to_string(), "refresh_token".to_string()),
        ]
    );
}

#[test]
fn credential_uri_derives_the_token_endpoint() {
    let mut builder = AuthorizationCodeCredential::builder();
    builder.with_tenant("contoso");
    let credential = builder.build();
    let uri = credential.uri(&AzureCloudInstance::AzurePublic).unwrap();
    assert_eq!(uri, "https://login.microsoftonline.com/contoso/oauth2/v2.0/token");
}

#[test]
fn authorization_url_parameters_carry_into_the_credential() {
    let mut url_builder = AuthorizationCodeAuthorizationUrl::builder();
    url_builder.with_client_id("id");
    url_builder.with_redirect_uri("https://localhost:8080");
    url_builder.with_scopes(&vec!["read".to_string()]);
    url_builder.with_tenant("contoso");
    url_builder.with_code_verifier("verifier");
    let url = url_builder.build();
    let mut builder =
        graph_oauth::authorization_code_credential::AuthorizationCodeCredentialBuilder::from_authorization_url(&url);
    builder.with_client_secret("secret");
    builder.with_authorization_code("code");
    let credential = builder.build();
    assert_eq!(credential.client_id, "id");
    assert_eq!(credential.redirect_uri, "https://localhost:8080");
    assert_eq!(credential.scopes, vec!["read".to_string()]);
    assert_eq!(credential.authority.as_ref(), "contoso");
    assert_eq!(credential.code_verifier, Some("verifier".to_string()));
}

#[test]
fn default_scope_replaces_the_sign_in_scopes() {
    let mut builder = graph_oauth::open_id_authorization_url::OpenIdAuthorizationUrl::builder()
        .unwrap();
    builder.with_default_scope().unwrap();
    let url = builder.build();
    assert_eq!(
        url.scope,
        vec![
            "profile".to_string(),
            "email".to_string(),
            "id_token".to_string(),
            "offline_access".to_string(),
        ]
    );
    assert_eq!(url.response_mode, Some(graph_oauth::identity::ResponseMode::FormPost));
    assert_eq!(url.nonce.len(), 43);
}

#[test]
fn builder_pkce_pair_is_generated() {
    let mut builder = AuthorizationCodeAuthorizationUrl::builder();
    builder.generate_sha256_challenge_and_verifier().unwrap();
    let url = builder.build();
    let verifier = url.code_verifier.unwrap();
    let challenge = url.code_challenge.unwrap();
    assert_eq!(url.code_challenge_method, Some("S256".to_string()));
    assert_eq!(verifier.len(), 43);
    assert_eq!(challenge.len(), 43);
    assert_ne!(verifier, challenge);
}

#[test]
fn token_flow_url_is_exact() {
    let mut builder = TokenFlowAuthorizationUrl::builder();
    builder.with_client_id("c");
    builder.with_redirect_uri("https://r");
    builder.with_scope(&vec!["s".to_string()]);
    let url = builder.build().url().unwrap();
    assert_eq!(
        url,
        "https://login.live.com?client_id=c&redirect_uri=https%3A%2F%2Fr&scope=s&response_type=token"
    );
}

#[test]
fn open_id_url_is_exact_with_a_fixed_nonce() {
    let mut builder = graph_oauth::open_id_authorization_url::OpenIdAuthorizationUrl::builder()
        .unwrap();
    builder.with_client_id("id");
    builder.with_redirect_uri("https://localhost:8080");
    builder.with_nonce("n1");
    let url = builder.build().url().unwrap();
    assert_eq!(
        url,
        "https://login.microsoftonline.com/common/oauth2/v2.0/authorize?client_id=id&redirect_uri=https%3A%2F%2Flocalhost%3A8080&response_type=code&scope=openid&nonce=n1"
    );
}

#[test]
fn token_flow_demands_every_field() {
    let mut builder = TokenFlowAuthorizationUrl::builder();
    builder.with_client_id("c");
    builder.with_redirect_uri("https://r");
    match builder.build().url() {
        Err(AuthError::RequiredParameterMissing { alias, .. }) => assert_eq!(alias, "scope"),
        other => panic!("expected a missing-scope error, got {other:?}"),
    }
}
