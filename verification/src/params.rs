//! The registry of OAuth wire-protocol fields: every parameter the library
//! can place in an authorization query or a token-request form body, its
//! stable on-wire alias, and whether diagnostics must redact its value.

use vstd::prelude::*;

verus! {

/// How many parameters [`OAuthParameter`] enumerates.
pub const PARAM_COUNT: usize = 32;

/// Fields that represent common OAuth credentials.
///
/// Each variant stands for one wire-protocol field. The alias strings are
/// stable: they are the exact names written into query strings and form
/// bodies, so they must never change.
#[derive(Debug, Copy, Clone, PartialEq, Eq, Hash, Structural)]
pub enum OAuthParameter {
    ClientId,
    ClientSecret,
    AuthorizationUrl,
    AccessTokenUrl,
    RefreshTokenUrl,
    RedirectUri,
    AuthorizationCode,
    AccessToken,
    RefreshToken,
    ResponseMode,
    State,
    SessionState,
    ResponseType,
    GrantType,
    Nonce,
    Prompt,
    IdToken,
    Resource,
    DomainHint,
    Scope,
    LoginHint,
    ClientAssertion,
    ClientAssertionType,
    CodeVerifier,
    CodeChallenge,
    CodeChallengeMethod,
    PostLogoutRedirectURI,
    LogoutURL,
    AdminConsent,
    Username,
    Password,
    DeviceCode,
}

impl OAuthParameter {
    /// The on-wire alias of this parameter, as a mathematical value.
    pub open spec fn alias_spec(self) -> Seq<char> {
        match self {
            OAuthParameter::ClientId => "client_id"@,
            OAuthParameter::ClientSecret => "client_secret"@,
            OAuthParameter::AuthorizationUrl => "authorization_url"@,
            OAuthParameter::AccessTokenUrl => "access_token_url"@,
            OAuthParameter::RefreshTokenUrl => "refresh_token_url"@,
            OAuthParameter::RedirectUri => "redirect_uri"@,
            OAuthParameter::AuthorizationCode => "code"@,
            OAuthParameter::AccessToken => "access_token"@,
            OAuthParameter::RefreshToken => "refresh_token"@,
            OAuthParameter::ResponseMode => "response_mode"@,
            OAuthParameter::State => "state"@,
            OAuthParameter::SessionState => "session_state"@,
            OAuthParameter::ResponseType => "response_type"@,
            OAuthParameter::GrantType => "grant_type"@,
            OAuthParameter::Nonce => "nonce"@,
            OAuthParameter::Prompt => "prompt"@,
            OAuthParameter::IdToken => "id_token"@,
            OAuthParameter::Resource => "resource"@,
            OAuthParameter::DomainHint => "domain_hint"@,
            OAuthParameter::Scope => "scope"@,
            OAuthParameter::LoginHint => "login_hint"@,
            OAuthParameter::ClientAssertion => "client_assertion"@,
            OAuthParameter::ClientAssertionType => "client_assertion_type"@,
            OAuthParameter::CodeVerifier => "code_verifier"@,
            OAuthParameter::CodeChallenge => "code_challenge"@,
            OAuthParameter::CodeChallengeMethod => "code_challenge_method"@,
            OAuthParameter::PostLogoutRedirectURI => "post_logout_redirect_uri"@,
            OAuthParameter::LogoutURL => "logout_url"@,
            OAuthParameter::AdminConsent => "admin_consent"@,
            OAuthParameter::Username => "username"@,
            OAuthParameter::Password => "password"@,
            OAuthParameter::DeviceCode => "device_code"@,
        }
    }

    /// The on-wire alias of this parameter.
    pub fn alias(self) -> (r: &'static str)
        ensures
            r@ == self.alias_spec(),
    {
        match self {
            OAuthParameter::ClientId => "client_id",
            OAuthParameter::ClientSecret => "client_secret",
            OAuthParameter::AuthorizationUrl => "authorization_url",
            OAuthParameter::AccessTokenUrl => "access_token_url",
            OAuthParameter::RefreshTokenUrl => "refresh_token_url",
            OAuthParameter::RedirectUri => "redirect_uri",
            OAuthParameter::AuthorizationCode => "code",
            OAuthParameter::AccessToken => "access_token",
            OAuthParameter::RefreshToken => "refresh_token",
            OAuthParameter::ResponseMode => "response_mode",
            OAuthParameter::State => "state",
            OAuthParameter::SessionState => "session_state",
            OAuthParameter::ResponseType => "response_type",
            OAuthParameter::GrantType => "grant_type",
            OAuthParameter::Nonce => "nonce",
            OAuthParameter::Prompt => "prompt",
            OAuthParameter::IdToken => "id_token",
            OAuthParameter::Resource => "resource",
            OAuthParameter::DomainHint => "domain_hint",
            OAuthParameter::Scope => "scope",
            OAuthParameter::LoginHint => "login_hint",
            OAuthParameter::ClientAssertion => "client_assertion",
            OAuthParameter::ClientAssertionType => "client_assertion_type",
            OAuthParameter::CodeVerifier => "code_verifier",
            OAuthParameter::CodeChallenge => "code_challenge",
            OAuthParameter::CodeChallengeMethod => "code_challenge_method",
            OAuthParameter::PostLogoutRedirectURI => "post_logout_redirect_uri",
            OAuthParameter::LogoutURL => "logout_url",
            OAuthParameter::AdminConsent => "admin_consent",
            OAuthParameter::Username => "username",
            OAuthParameter::Password => "password",
            OAuthParameter::DeviceCode => "device_code",
        }
    }

    /// The position of this parameter in the registry, as a mathematical value.
    pub open spec fn index_spec(self) -> int {
        match self {
            OAuthParameter::ClientId => 0,
            OAuthParameter::ClientSecret => 1,
            OAuthParameter::AuthorizationUrl => 2,
            OAuthParameter::AccessTokenUrl => 3,
            OAuthParameter::RefreshTokenUrl => 4,
            OAuthParameter::RedirectUri => 5,
            OAuthParameter::AuthorizationCode => 6,
            OAuthParameter::AccessToken => 7,
            OAuthParameter::RefreshToken => 8,
            OAuthParameter::ResponseMode => 9,
            OAuthParameter::State => 10,
            OAuthParameter::SessionState => 11,
            OAuthParameter::ResponseType => 12,
            OAuthParameter::GrantType => 13,
            OAuthParameter::Nonce => 14,
            OAuthParameter::Prompt => 15,
            OAuthParameter::IdToken => 16,
            OAuthParameter::Resource => 17,
            OAuthParameter::DomainHint => 18,
            OAuthParameter::Scope => 19,
            OAuthParameter::LoginHint => 20,
            OAuthParameter::ClientAssertion => 21,
            OAuthParameter::ClientAssertionType => 22,
            OAuthParameter::CodeVerifier => 23,
            OAuthParameter::CodeChallenge => 24,
            OAuthParameter::CodeChallengeMethod => 25,
            OAuthParameter::PostLogoutRedirectURI => 26,
            OAuthParameter::LogoutURL => 27,
            OAuthParameter::AdminConsent => 28,
            OAuthParameter::Username => 29,
            OAuthParameter::Password => 30,
            OAuthParameter::DeviceCode => 31,
        }
    }

    /// The position of this parameter in the registry; always below
    /// [`PARAM_COUNT`].
    pub fn index(self) -> (r: usize)
        ensures
            r == self.index_spec(),
    {
        match self {
            OAuthParameter::ClientId => 0,
            OAuthParameter::ClientSecret => 1,
            OAuthParameter::AuthorizationUrl => 2,
            OAuthParameter::AccessTokenUrl => 3,
            OAuthParameter::RefreshTokenUrl => 4,
            OAuthParameter::RedirectUri => 5,
            OAuthParameter::AuthorizationCode => 6,
            OAuthParameter::AccessToken => 7,
            OAuthParameter::RefreshToken => 8,
            OAuthParameter::ResponseMode => 9,
            OAuthParameter::State => 10,
            OAuthParameter::SessionState => 11,
            OAuthParameter::ResponseType => 12,
            OAuthParameter::GrantType => 13,
            OAuthParameter::Nonce => 14,
            OAuthParameter::Prompt => 15,
            OAuthParameter::IdToken => 16,
            OAuthParameter::Resource => 17,
            OAuthParameter::DomainHint => 18,
            OAuthParameter::Scope => 19,
            OAuthParameter::LoginHint => 20,
            OAuthParameter::ClientAssertion => 21,
            OAuthParameter::ClientAssertionType => 22,
            OAuthParameter::CodeVerifier => 23,
            OAuthParameter::CodeChallenge => 24,
            OAuthParameter::CodeChallengeMethod => 25,
            OAuthParameter::PostLogoutRedirectURI => 26,
            OAuthParameter::LogoutURL => 27,
            OAuthParameter::AdminConsent => 28,
            OAuthParameter::Username => 29,
            OAuthParameter::Password => 30,
            OAuthParameter::DeviceCode => 31,
        }
    }

    /// Whether this parameter holds a value that diagnostics must redact.
    pub open spec fn is_debug_redacted_spec(self) -> bool {
        match self {
            OAuthParameter::ClientId
            | OAuthParameter::ClientSecret
            | OAuthParameter::AccessToken
            | OAuthParameter::RefreshToken
            | OAuthParameter::IdToken
            | OAuthParameter::CodeVerifier
            | OAuthParameter::CodeChallenge
            | OAuthParameter::Password
            | OAuthParameter::AuthorizationCode => true,
            _ => false,
        }
    }

    /// Whether this parameter holds a value that diagnostics must redact.
    pub fn is_debug_redacted(&self) -> (r: bool)
        ensures
            r == self.is_debug_redacted_spec(),
    {
        matches!(
            self,
            OAuthParameter::ClientId
                | OAuthParameter::ClientSecret
                | OAuthParameter::AccessToken
                | OAuthParameter::RefreshToken
                | OAuthParameter::IdToken
                | OAuthParameter::CodeVerifier
                | OAuthParameter::CodeChallenge
                | OAuthParameter::Password
                | OAuthParameter::AuthorizationCode
        )
    }

    /// Whether values of this parameter must parse as absolute URLs when
    /// they are inserted into a credential store.
    pub open spec fn is_url_kind_spec(self) -> bool {
        match self {
            OAuthParameter::AuthorizationUrl
            | OAuthParameter::AccessTokenUrl
            | OAuthParameter::RefreshTokenUrl
            | OAuthParameter::PostLogoutRedirectURI
            | OAuthParameter::LogoutURL => true,
            _ => false,
        }
    }

    /// Whether values of this parameter must parse as absolute URLs when
    /// they are inserted into a credential store.
    pub fn is_url_kind(&self) -> (r: bool)
        ensures
            r == self.is_url_kind_spec(),
    {
        matches!(
            self,
            OAuthParameter::AuthorizationUrl
                | OAuthParameter::AccessTokenUrl
                | OAuthParameter::RefreshTokenUrl
                | OAuthParameter::PostLogoutRedirectURI
                | OAuthParameter::LogoutURL
        )
    }
}

/// The parameter at a registry position, as a mathematical value.
/// Positions outside the registry map to the last parameter.
pub open spec fn param_at_spec(i: int) -> OAuthParameter {
    if i == 0 {
        OAuthParameter::ClientId
    } else if i == 1 {
        OAuthParameter::ClientSecret
    } else if i == 2 {
        OAuthParameter::AuthorizationUrl
    } else if i == 3 {
        OAuthParameter::AccessTokenUrl
    } else if i == 4 {
        OAuthParameter::RefreshTokenUrl
    } else if i == 5 {
        OAuthParameter::RedirectUri
    } else if i == 6 {
        OAuthParameter::AuthorizationCode
    } else if i == 7 {
        OAuthParameter::AccessToken
    } else if i == 8 {
        OAuthParameter::RefreshToken
    } else if i == 9 {
        OAuthParameter::ResponseMode
    } else if i == 10 {
        OAuthParameter::State
    } else if i == 11 {
        OAuthParameter::SessionState
    } else if i == 12 {
        OAuthParameter::ResponseType
    } else if i == 13 {
        OAuthParameter::GrantType
    } else if i == 14 {
        OAuthParameter::Nonce
    } else if i == 15 {
        OAuthParameter::Prompt
    } else if i == 16 {
        OAuthParameter::IdToken
    } else if i == 17 {
        OAuthParameter::Resource
    } else if i == 18 {
        OAuthParameter::DomainHint
    } else if i == 19 {
        OAuthParameter::Scope
    } else if i == 20 {
        OAuthParameter::LoginHint
    } else if i == 21 {
        OAuthParameter::ClientAssertion
    } else if i == 22 {
        OAuthParameter::ClientAssertionType
    } else if i == 23 {
        OAuthParameter::CodeVerifier
    } else if i == 24 {
        OAuthParameter::CodeChallenge
    } else if i == 25 {
        OAuthParameter::CodeChallengeMethod
    } else if i == 26 {
        OAuthParameter::PostLogoutRedirectURI
    } else if i == 27 {
        OAuthParameter::LogoutURL
    } else if i == 28 {
        OAuthParameter::AdminConsent
    } else if i == 29 {
        OAuthParameter::Username
    } else if i == 30 {
        OAuthParameter::Password
    } else {
        OAuthParameter::DeviceCode
    }
}

/// The parameter at a registry position.
pub fn param_at(i: usize) -> (r: OAuthParameter)
    requires
        i < PARAM_COUNT,
    ensures
        r.index_spec() == i,
        r == param_at_spec(i as int),
{
    match i {
        0 => OAuthParameter::ClientId,
        1 => OAuthParameter::ClientSecret,
        2 => OAuthParameter::AuthorizationUrl,
        3 => OAuthParameter::AccessTokenUrl,
        4 => OAuthParameter::RefreshTokenUrl,
        5 => OAuthParameter::RedirectUri,
        6 => OAuthParameter::AuthorizationCode,
        7 => OAuthParameter::AccessToken,
        8 => OAuthParameter::RefreshToken,
        9 => OAuthParameter::ResponseMode,
        10 => OAuthParameter::State,
        11 => OAuthParameter::SessionState,
        12 => OAuthParameter::ResponseType,
        13 => OAuthParameter::GrantType,
        14 => OAuthParameter::Nonce,
        15 => OAuthParameter::Prompt,
        16 => OAuthParameter::IdToken,
        17 => OAuthParameter::Resource,
        18 => OAuthParameter::DomainHint,
        19 => OAuthParameter::Scope,
        20 => OAuthParameter::LoginHint,
        21 => OAuthParameter::ClientAssertion,
        22 => OAuthParameter::ClientAssertionType,
        23 => OAuthParameter::CodeVerifier,
        24 => OAuthParameter::CodeChallenge,
        25 => OAuthParameter::CodeChallengeMethod,
        26 => OAuthParameter::PostLogoutRedirectURI,
        27 => OAuthParameter::LogoutURL,
        28 => OAuthParameter::AdminConsent,
        29 => OAuthParameter::Username,
        30 => OAuthParameter::Password,
        _ => OAuthParameter::DeviceCode,
    }
}

/// The parameter with the given on-wire alias, if the alias names one.
pub fn param_of_alias(key: &str) -> (r: Option<OAuthParameter>)
    ensures
        r matches Some(p) ==> p.alias_spec() == key@,
        r is None ==> forall|p: OAuthParameter| #[trigger] p.alias_spec() != key@,
{
    if crate::text::text_eq(key, "client_id") {
        Some(OAuthParameter::ClientId)
    } else if crate::text::text_eq(key, "client_secret") {
        Some(OAuthParameter::ClientSecret)
    } else if crate::text::text_eq(key, "authorization_url") {
        Some(OAuthParameter::AuthorizationUrl)
    } else if crate::text::text_eq(key, "access_token_url") {
        Some(OAuthParameter::AccessTokenUrl)
    } else if crate::text::text_eq(key, "refresh_token_url") {
        Some(OAuthParameter::RefreshTokenUrl)
    } else if crate::text::text_eq(key, "redirect_uri") {
        Some(OAuthParameter::RedirectUri)
    } else if crate::text::text_eq(key, "code") {
        Some(OAuthParameter::AuthorizationCode)
    } else if crate::text::text_eq(key, "access_token") {
        Some(OAuthParameter::AccessToken)
    } else if crate::text::text_eq(key, "refresh_token") {
        Some(OAuthParameter::RefreshToken)
    } else if crate::text::text_eq(key, "response_mode") {
        Some(OAuthParameter::ResponseMode)
    } else if crate::text::text_eq(key, "state") {
        Some(OAuthParameter::State)
    } else if crate::text::text_eq(key, "session_state") {
        Some(OAuthParameter::SessionState)
    } else if crate::text::text_eq(key, "response_type") {
        Some(OAuthParameter::ResponseType)
    } else if crate::text::text_eq(key, "grant_type") {
        Some(OAuthParameter::GrantType)
    } else if crate::text::text_eq(key, "nonce") {
        Some(OAuthParameter::Nonce)
    } else if crate::text::text_eq(key, "prompt") {
        Some(OAuthParameter::Prompt)
    } else if crate::text::text_eq(key, "id_token") {
        Some(OAuthParameter::IdToken)
    } else if crate::text::text_eq(key, "resource") {
        Some(OAuthParameter::Resource)
    } else if crate::text::text_eq(key, "domain_hint") {
        Some(OAuthParameter::DomainHint)
    } else if crate::text::text_eq(key, "scope") {
        Some(OAuthParameter::Scope)
    } else if crate::text::text_eq(key, "login_hint") {
        Some(OAuthParameter::LoginHint)
    } else if crate::text::text_eq(key, "client_assertion") {
        Some(OAuthParameter::ClientAssertion)
    } else if crate::text::text_eq(key, "client_assertion_type") {
        Some(OAuthParameter::ClientAssertionType)
    } else if crate::text::text_eq(key, "code_verifier") {
        Some(OAuthParameter::CodeVerifier)
    } else if crate::text::text_eq(key, "code_challenge") {
        Some(OAuthParameter::CodeChallenge)
    } else if crate::text::text_eq(key, "code_challenge_method") {
        Some(OAuthParameter::CodeChallengeMethod)
    } else if crate::text::text_eq(key, "post_logout_redirect_uri") {
        Some(OAuthParameter::PostLogoutRedirectURI)
    } else if crate::text::text_eq(key, "logout_url") {
        Some(OAuthParameter::LogoutURL)
    } else if crate::text::text_eq(key, "admin_consent") {
        Some(OAuthParameter::AdminConsent)
    } else if crate::text::text_eq(key, "username") {
        Some(OAuthParameter::Username)
    } else if crate::text::text_eq(key, "password") {
        Some(OAuthParameter::Password)
    } else if crate::text::text_eq(key, "device_code") {
        Some(OAuthParameter::DeviceCode)
    } else {
        proof {
            assert forall|p: OAuthParameter| #[trigger] p.alias_spec() != key@ by {}
        }
        None
    }
}

/// Registry positions identify parameters uniquely.
pub proof fn lemma_index_injective(p: OAuthParameter, q: OAuthParameter)
    requires
        p.index_spec() == q.index_spec(),
    ensures
        p == q,
{
}

/// Alias strings identify parameters uniquely: two different parameters never
/// share an on-wire alias.
///
/// The proof gives the solver, for every alias, its length and first
/// character, and one further character for the few aliases that share both.
#[verifier::rlimit(100)]
pub proof fn lemma_alias_injective(p: OAuthParameter, q: OAuthParameter)
    requires
        p.alias_spec() == q.alias_spec(),
    ensures
        p == q,
{
    broadcast use vstd::string::group_string_axioms;

    reveal_strlit("client_id");
    reveal_strlit("client_secret");
    reveal_strlit("authorization_url");
    reveal_strlit("access_token_url");
    reveal_strlit("refresh_token_url");
    reveal_strlit("redirect_uri");
    reveal_strlit("code");
    reveal_strlit("access_token");
    reveal_strlit("refresh_token");
    reveal_strlit("response_mode");
    reveal_strlit("state");
    reveal_strlit("session_state");
    reveal_strlit("response_type");
    reveal_strlit("grant_type");
    reveal_strlit("nonce");
    reveal_strlit("prompt");
    reveal_strlit("id_token");
    reveal_strlit("resource");
    reveal_strlit("domain_hint");
    reveal_strlit("scope");
    reveal_strlit("login_hint");
    reveal_strlit("client_assertion");
    reveal_strlit("client_assertion_type");
    reveal_strlit("code_verifier");
    reveal_strlit("code_challenge");
    reveal_strlit("code_challenge_method");
    reveal_strlit("post_logout_redirect_uri");
    reveal_strlit("logout_url");
    reveal_strlit("admin_consent");
    reveal_strlit("username");
    reveal_strlit("password");
    reveal_strlit("device_code");
    assert("client_id"@.len() == 9 && "client_id"@[0] == 'c');
    assert("client_secret"@.len() == 13 && "client_secret"@[0] == 'c');
    assert("authorization_url"@.len() == 17 && "authorization_url"@[0] == 'a');
    assert("access_token_url"@.len() == 16 && "access_token_url"@[0] == 'a');
    assert("refresh_token_url"@.len() == 17 && "refresh_token_url"@[0] == 'r');
    assert("redirect_uri"@.len() == 12 && "redirect_uri"@[0] == 'r');
    assert("code"@.len() == 4 && "code"@[0] == 'c');
    assert("access_token"@.len() == 12 && "access_token"@[0] == 'a');
    assert("refresh_token"@.len() == 13 && "refresh_token"@[0] == 'r');
    assert("response_mode"@.len() == 13 && "response_mode"@[0] == 'r');
    assert("state"@.len() == 5 && "state"@[0] == 's');
    assert("session_state"@.len() == 13 && "session_state"@[0] == 's');
    assert("response_type"@.len() == 13 && "response_type"@[0] == 'r');
    assert("grant_type"@.len() == 10 && "grant_type"@[0] == 'g');
    assert("nonce"@.len() == 5 && "nonce"@[0] == 'n');
    assert("prompt"@.len() == 6 && "prompt"@[0] == 'p');
    assert("id_token"@.len() == 8 && "id_token"@[0] == 'i');
    assert("resource"@.len() == 8 && "resource"@[0] == 'r');
    assert("domain_hint"@.len() == 11 && "domain_hint"@[0] == 'd');
    assert("scope"@.len() == 5 && "scope"@[0] == 's');
    assert("login_hint"@.len() == 10 && "login_hint"@[0] == 'l');
    assert("client_assertion"@.len() == 16 && "client_assertion"@[0] == 'c');
    assert("client_assertion_type"@.len() == 21 && "client_assertion_type"@[0] == 'c');
    assert("code_verifier"@.len() == 13 && "code_verifier"@[0] == 'c');
    assert("code_challenge"@.len() == 14 && "code_challenge"@[0] == 'c');
    assert("code_challenge_method"@.len() == 21 && "code_challenge_method"@[0] == 'c');
    assert("post_logout_redirect_uri"@.len() == 24 && "post_logout_redirect_uri"@[0] == 'p');
    assert("logout_url"@.len() == 10 && "logout_url"@[0] == 'l');
    assert("admin_consent"@.len() == 13 && "admin_consent"@[0] == 'a');
    assert("username"@.len() == 8 && "username"@[0] == 'u');
    assert("password"@.len() == 8 && "password"@[0] == 'p');
    assert("device_code"@.len() == 11 && "device_code"@[0] == 'd');
    assert("state"@[1] == 't' && "scope"@[1] == 'c');
    assert("client_secret"@[1] == 'l' && "code_verifier"@[1] == 'o');
    assert("client_assertion_type"@[1] == 'l' && "code_challenge_method"@[1] == 'o');
    assert("domain_hint"@[1] == 'o' && "device_code"@[1] == 'e');
    assert("refresh_token"@[2] == 'f' && "response_mode"@[2] == 's' && "response_type"@[2] == 's');
    assert("response_mode"@[9] == 'm' && "response_type"@[9] == 't');
    assert("login_hint"@[3] == 'i' && "logout_url"@[3] == 'o');
}

} // verus!
