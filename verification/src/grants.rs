//! Grant types and, for every grant type and request phase, the declared
//! sets of required and optional wire parameters.
//!
//! The tables here are static data: they are never mutated at run time, and
//! the declaration order of each list is the order in which the encoder
//! validates and writes fields.

use vstd::prelude::*;

use crate::params::OAuthParameter;

verus! {

/// A request phase of an OAuth grant: the initial browser redirect, the
/// exchange of a code (or equivalent) for a token, or a token refresh.
#[derive(Debug, Copy, Clone, PartialEq, Eq, Structural)]
pub enum GrantRequest {
    Authorization,
    AccessToken,
    RefreshToken,
}

/// An OAuth 2.0 / OpenID Connect grant type.
#[derive(Debug, Copy, Clone, PartialEq, Eq, Structural)]
pub enum GrantType {
    TokenFlow,
    CodeFlow,
    AuthorizationCode,
    Implicit,
    DeviceCode,
    OpenId,
    ClientCredentials,
    ResourceOwnerPasswordCredentials,
}

impl GrantType {
    /// Whether this grant type has any exchange for the given request phase.
    ///
    /// The token flow and the implicit grant return the token directly in the
    /// authorization redirect fragment, so they support only browser-based
    /// authorization: there is no token or refresh endpoint exchange.
    pub open spec fn supports_spec(self, request: GrantRequest) -> bool {
        match self {
            GrantType::TokenFlow | GrantType::Implicit => request == GrantRequest::Authorization,
            _ => true,
        }
    }

    /// Whether this grant type has any exchange for the given request phase.
    pub fn supports(self, request: GrantRequest) -> (r: bool)
        ensures
            r == self.supports_spec(request),
    {
        match self {
            GrantType::TokenFlow | GrantType::Implicit => request == GrantRequest::Authorization,
            _ => true,
        }
    }

    /// The fixed value this grant type and phase inject for a parameter, if
    /// any. Injection never overwrites a caller-set value. The implicit
    /// grant injects its response type only when scopes were set.
    pub open spec fn injected_value(
        self,
        request: GrantRequest,
        has_scopes: bool,
        p: OAuthParameter,
    ) -> Option<Seq<char>> {
        match self {
            GrantType::TokenFlow => if request == GrantRequest::Authorization && p
                == OAuthParameter::ResponseType {
                Some("token"@)
            } else {
                None
            },
            GrantType::CodeFlow => match request {
                GrantRequest::Authorization => if p == OAuthParameter::ResponseType {
                    Some("code"@)
                } else if p == OAuthParameter::ResponseMode {
                    Some("query"@)
                } else {
                    None
                },
                GrantRequest::AccessToken => if p == OAuthParameter::ResponseType {
                    Some("token"@)
                } else if p == OAuthParameter::GrantType {
                    Some("authorization_code"@)
                } else {
                    None
                },
                GrantRequest::RefreshToken => if p == OAuthParameter::GrantType {
                    Some("refresh_token"@)
                } else {
                    None
                },
            },
            GrantType::AuthorizationCode => match request {
                GrantRequest::Authorization => if p == OAuthParameter::ResponseType {
                    Some("code"@)
                } else if p == OAuthParameter::ResponseMode {
                    Some("query"@)
                } else {
                    None
                },
                GrantRequest::AccessToken => if p == OAuthParameter::GrantType {
                    Some("authorization_code"@)
                } else {
                    None
                },
                GrantRequest::RefreshToken => if p == OAuthParameter::GrantType {
                    Some("refresh_token"@)
                } else {
                    None
                },
            },
            GrantType::Implicit => if request == GrantRequest::Authorization && has_scopes && p
                == OAuthParameter::ResponseType {
                Some("token"@)
            } else {
                None
            },
            GrantType::DeviceCode => match request {
                GrantRequest::Authorization => None,
                GrantRequest::AccessToken => if p == OAuthParameter::GrantType {
                    Some("urn:ietf:params:oauth:grant-type:device_code"@)
                } else {
                    None
                },
                GrantRequest::RefreshToken => if p == OAuthParameter::GrantType {
                    Some("refresh_token"@)
                } else {
                    None
                },
            },
            GrantType::OpenId => match request {
                GrantRequest::Authorization => None,
                GrantRequest::AccessToken => if p == OAuthParameter::GrantType {
                    Some("authorization_code"@)
                } else {
                    None
                },
                GrantRequest::RefreshToken => if p == OAuthParameter::GrantType {
                    Some("refresh_token"@)
                } else {
                    None
                },
            },
            GrantType::ClientCredentials => if (request == GrantRequest::AccessToken || request
                == GrantRequest::RefreshToken) && p == OAuthParameter::GrantType {
                Some("client_credentials"@)
            } else {
                None
            },
            GrantType::ResourceOwnerPasswordCredentials => if p == OAuthParameter::GrantType {
                if request == GrantRequest::RefreshToken {
                    Some("refresh_token"@)
                } else {
                    Some("password"@)
                }
            } else {
                None
            },
        }
    }

    /// The parameters that must be present for this grant type and phase,
    /// in the order in which they are validated and encoded.
    pub open spec fn required_spec(self, request: GrantRequest) -> Seq<OAuthParameter> {
        match self {
            GrantType::TokenFlow => match request {
                GrantRequest::Authorization => seq![
                    OAuthParameter::ClientId,
                    OAuthParameter::RedirectUri,
                    OAuthParameter::Scope,
                    OAuthParameter::ResponseType,
                ],
                _ => seq![],
            },
            GrantType::CodeFlow => match request {
                GrantRequest::Authorization => seq![
                    OAuthParameter::ClientId,
                    OAuthParameter::RedirectUri,
                    OAuthParameter::ResponseType,
                    OAuthParameter::ResponseMode,
                    OAuthParameter::Scope,
                ],
                GrantRequest::AccessToken => seq![
                    OAuthParameter::ClientId,
                    OAuthParameter::ClientSecret,
                    OAuthParameter::RedirectUri,
                    OAuthParameter::AuthorizationCode,
                    OAuthParameter::GrantType,
                ],
                GrantRequest::RefreshToken => seq![
                    OAuthParameter::ClientId,
                    OAuthParameter::ClientSecret,
                    OAuthParameter::RedirectUri,
                    OAuthParameter::RefreshToken,
                    OAuthParameter::GrantType,
                ],
            },
            GrantType::AuthorizationCode => match request {
                GrantRequest::Authorization => seq![
                    OAuthParameter::ClientId,
                    OAuthParameter::RedirectUri,
                    OAuthParameter::ResponseType,
                    OAuthParameter::ResponseMode,
                    OAuthParameter::Scope,
                ],
                GrantRequest::AccessToken => seq![
                    OAuthParameter::ClientId,
                    OAuthParameter::ClientSecret,
                    OAuthParameter::RedirectUri,
                    OAuthParameter::AuthorizationCode,
                    OAuthParameter::GrantType,
                ],
                GrantRequest::RefreshToken => seq![
                    OAuthParameter::ClientId,
                    OAuthParameter::ClientSecret,
                    OAuthParameter::RefreshToken,
                    OAuthParameter::GrantType,
                ],
            },
            GrantType::Implicit => match request {
                GrantRequest::Authorization => seq![
                    OAuthParameter::ClientId,
                    OAuthParameter::RedirectUri,
                    OAuthParameter::Scope,
                    OAuthParameter::ResponseType,
                ],
                _ => seq![],
            },
            GrantType::DeviceCode => match request {
                GrantRequest::Authorization => seq![
                    OAuthParameter::ClientId,
                    OAuthParameter::Scope,
                ],
                // The refresh phase deliberately reuses the access-token
                // parameter set; only the injected grant_type value differs.
                GrantRequest::AccessToken | GrantRequest::RefreshToken => seq![
                    OAuthParameter::ClientId,
                    OAuthParameter::GrantType,
                    OAuthParameter::DeviceCode,
                ],
            },
            GrantType::OpenId => match request {
                GrantRequest::Authorization => seq![
                    OAuthParameter::ClientId,
                    OAuthParameter::RedirectUri,
                    OAuthParameter::ResponseType,
                    OAuthParameter::Scope,
                    OAuthParameter::Nonce,
                ],
                GrantRequest::AccessToken => seq![
                    OAuthParameter::ClientId,
                    OAuthParameter::ClientSecret,
                    OAuthParameter::RedirectUri,
                    OAuthParameter::AuthorizationCode,
                    OAuthParameter::GrantType,
                ],
                GrantRequest::RefreshToken => seq![
                    OAuthParameter::ClientId,
                    OAuthParameter::ClientSecret,
                    OAuthParameter::RefreshToken,
                    OAuthParameter::GrantType,
                ],
            },
            GrantType::ClientCredentials => match request {
                GrantRequest::Authorization => seq![
                    OAuthParameter::ClientId,
                    OAuthParameter::RedirectUri,
                ],
                GrantRequest::AccessToken | GrantRequest::RefreshToken => seq![
                    OAuthParameter::ClientId,
                    OAuthParameter::ClientSecret,
                    OAuthParameter::GrantType,
                    OAuthParameter::Scope,
                ],
            },
            GrantType::ResourceOwnerPasswordCredentials => match request {
                GrantRequest::Authorization | GrantRequest::AccessToken => seq![
                    OAuthParameter::ClientId,
                    OAuthParameter::GrantType,
                    OAuthParameter::Username,
                    OAuthParameter::Password,
                ],
                GrantRequest::RefreshToken => seq![
                    OAuthParameter::ClientId,
                    OAuthParameter::GrantType,
                    OAuthParameter::RefreshToken,
                ],
            },
        }
    }

    /// The parameters that are written when present but whose absence is not
    /// an error, in the order in which they are encoded after the required
    /// fields.
    pub open spec fn optional_spec(self, request: GrantRequest) -> Seq<OAuthParameter> {
        match self {
            GrantType::TokenFlow => match request {
                GrantRequest::Authorization => seq![OAuthParameter::State],
                _ => seq![],
            },
            GrantType::CodeFlow => match request {
                GrantRequest::Authorization => seq![OAuthParameter::State],
                GrantRequest::AccessToken | GrantRequest::RefreshToken => seq![
                    OAuthParameter::Scope,
                ],
            },
            GrantType::AuthorizationCode => match request {
                GrantRequest::Authorization => seq![
                    OAuthParameter::State,
                    OAuthParameter::Prompt,
                    OAuthParameter::DomainHint,
                    OAuthParameter::LoginHint,
                    OAuthParameter::CodeChallenge,
                    OAuthParameter::CodeChallengeMethod,
                    OAuthParameter::Nonce,
                ],
                GrantRequest::AccessToken => seq![
                    OAuthParameter::Scope,
                    OAuthParameter::CodeVerifier,
                ],
                GrantRequest::RefreshToken => seq![OAuthParameter::Scope],
            },
            GrantType::Implicit => match request {
                GrantRequest::Authorization => seq![
                    OAuthParameter::State,
                    OAuthParameter::ResponseMode,
                    OAuthParameter::Nonce,
                    OAuthParameter::Prompt,
                    OAuthParameter::LoginHint,
                    OAuthParameter::DomainHint,
                ],
                _ => seq![],
            },
            GrantType::DeviceCode => seq![],
            GrantType::OpenId => match request {
                GrantRequest::Authorization => seq![
                    OAuthParameter::ResponseMode,
                    OAuthParameter::State,
                    OAuthParameter::Prompt,
                    OAuthParameter::DomainHint,
                    OAuthParameter::LoginHint,
                ],
                GrantRequest::AccessToken => seq![
                    OAuthParameter::Scope,
                    OAuthParameter::CodeVerifier,
                ],
                GrantRequest::RefreshToken => seq![OAuthParameter::Scope],
            },
            GrantType::ClientCredentials => match request {
                GrantRequest::Authorization => seq![OAuthParameter::State],
                _ => seq![],
            },
            GrantType::ResourceOwnerPasswordCredentials => seq![
                OAuthParameter::Scope,
                OAuthParameter::ClientSecret,
            ],
        }
    }

    /// All parameters this grant type and phase may carry: the required list
    /// followed by the optional list.
    pub open spec fn available_spec(self, request: GrantRequest) -> Seq<OAuthParameter> {
        self.required_spec(request) + self.optional_spec(request)
    }

    /// The parameters that must be present for this grant type and phase.
    pub fn required_credentials(self, request: GrantRequest) -> (r: Vec<OAuthParameter>)
        ensures
            r@ == self.required_spec(request),
    {
        let mut v: Vec<OAuthParameter> = Vec::new();
        match self {
            GrantType::TokenFlow => match request {
                GrantRequest::Authorization => {
                    v.push(OAuthParameter::ClientId);
                    v.push(OAuthParameter::RedirectUri);
                    v.push(OAuthParameter::Scope);
                    v.push(OAuthParameter::ResponseType);
                },
                _ => {},
            },
            GrantType::CodeFlow => match request {
                GrantRequest::Authorization => {
                    v.push(OAuthParameter::ClientId);
                    v.push(OAuthParameter::RedirectUri);
                    v.push(OAuthParameter::ResponseType);
                    v.push(OAuthParameter::ResponseMode);
                    v.push(OAuthParameter::Scope);
                },
                GrantRequest::AccessToken => {
                    v.push(OAuthParameter::ClientId);
                    v.push(OAuthParameter::ClientSecret);
                    v.push(OAuthParameter::RedirectUri);
                    v.push(OAuthParameter::AuthorizationCode);
                    v.push(OAuthParameter::GrantType);
                },
                GrantRequest::RefreshToken => {
                    v.push(OAuthParameter::ClientId);
                    v.push(OAuthParameter::ClientSecret);
                    v.push(OAuthParameter::RedirectUri);
                    v.push(OAuthParameter::RefreshToken);
                    v.push(OAuthParameter::GrantType);
                },
            },
            GrantType::AuthorizationCode => match request {
                GrantRequest::Authorization => {
                    v.push(OAuthParameter::ClientId);
                    v.push(OAuthParameter::RedirectUri);
                    v.push(OAuthParameter::ResponseType);
                    v.push(OAuthParameter::ResponseMode);
                    v.push(OAuthParameter::Scope);
                },
                GrantRequest::AccessToken => {
                    v.push(OAuthParameter::ClientId);
                    v.push(OAuthParameter::ClientSecret);
                    v.push(OAuthParameter::RedirectUri);
                    v.push(OAuthParameter::AuthorizationCode);
                    v.push(OAuthParameter::GrantType);
                },
                GrantRequest::RefreshToken => {
                    v.push(OAuthParameter::ClientId);
                    v.push(OAuthParameter::ClientSecret);
                    v.push(OAuthParameter::RefreshToken);
                    v.push(OAuthParameter::GrantType);
                },
            },
            GrantType::Implicit => match request {
                GrantRequest::Authorization => {
                    v.push(OAuthParameter::ClientId);
                    v.push(OAuthParameter::RedirectUri);
                    v.push(OAuthParameter::Scope);
                    v.push(OAuthParameter::ResponseType);
                },
                _ => {},
            },
            GrantType::DeviceCode => match request {
                GrantRequest::Authorization => {
                    v.push(OAuthParameter::ClientId);
                    v.push(OAuthParameter::Scope);
                },
                GrantRequest::AccessToken | GrantRequest::RefreshToken => {
                    v.push(OAuthParameter::ClientId);
                    v.push(OAuthParameter::GrantType);
                    v.push(OAuthParameter::DeviceCode);
                },
            },
            GrantType::OpenId => match request {
                GrantRequest::Authorization => {
                    v.push(OAuthParameter::ClientId);
                    v.push(OAuthParameter::RedirectUri);
                    v.push(OAuthParameter::ResponseType);
                    v.push(OAuthParameter::Scope);
                    v.push(OAuthParameter::Nonce);
                },
                GrantRequest::AccessToken => {
                    v.push(OAuthParameter::ClientId);
                    v.push(OAuthParameter::ClientSecret);
                    v.push(OAuthParameter::RedirectUri);
                    v.push(OAuthParameter::AuthorizationCode);
                    v.push(OAuthParameter::GrantType);
                },
                GrantRequest::RefreshToken => {
                    v.push(OAuthParameter::ClientId);
                    v.push(OAuthParameter::ClientSecret);
                    v.push(OAuthParameter::RefreshToken);
                    v.push(OAuthParameter::GrantType);
                },
            },
            GrantType::ClientCredentials => match request {
                GrantRequest::Authorization => {
                    v.push(OAuthParameter::ClientId);
                    v.push(OAuthParameter::RedirectUri);
                },
                GrantRequest::AccessToken | GrantRequest::RefreshToken => {
                    v.push(OAuthParameter::ClientId);
                    v.push(OAuthParameter::ClientSecret);
                    v.push(OAuthParameter::GrantType);
                    v.push(OAuthParameter::Scope);
                },
            },
            GrantType::ResourceOwnerPasswordCredentials => match request {
                GrantRequest::Authorization | GrantRequest::AccessToken => {
                    v.push(OAuthParameter::ClientId);
                    v.push(OAuthParameter::GrantType);
                    v.push(OAuthParameter::Username);
                    v.push(OAuthParameter::Password);
                },
                GrantRequest::RefreshToken => {
                    v.push(OAuthParameter::ClientId);
                    v.push(OAuthParameter::GrantType);
                    v.push(OAuthParameter::RefreshToken);
                },
            },
        }
        proof {
            assert(v@ =~= self.required_spec(request));
        }
        v
    }

    /// The parameters that are written when present but never demanded.
    pub fn optional_credentials(self, request: GrantRequest) -> (r: Vec<OAuthParameter>)
        ensures
            r@ == self.optional_spec(request),
    {
        let mut v: Vec<OAuthParameter> = Vec::new();
        match self {
            GrantType::TokenFlow => match request {
                GrantRequest::Authorization => {
                    v.push(OAuthParameter::State);
                },
                _ => {},
            },
            GrantType::CodeFlow => match request {
                GrantRequest::Authorization => {
                    v.push(OAuthParameter::State);
                },
                GrantRequest::AccessToken | GrantRequest::RefreshToken => {
                    v.push(OAuthParameter::Scope);
                },
            },
            GrantType::AuthorizationCode => match request {
                GrantRequest::Authorization => {
                    v.push(OAuthParameter::State);
                    v.push(OAuthParameter::Prompt);
                    v.push(OAuthParameter::DomainHint);
                    v.push(OAuthParameter::LoginHint);
                    v.push(OAuthParameter::CodeChallenge);
                    v.push(OAuthParameter::CodeChallengeMethod);
                    v.push(OAuthParameter::Nonce);
                },
                GrantRequest::AccessToken => {
                    v.push(OAuthParameter::Scope);
                    v.push(OAuthParameter::CodeVerifier);
                },
                GrantRequest::RefreshToken => {
                    v.push(OAuthParameter::Scope);
                },
            },
            GrantType::Implicit => match request {
                GrantRequest::Authorization => {
                    v.push(OAuthParameter::State);
                    v.push(OAuthParameter::ResponseMode);
                    v.push(OAuthParameter::Nonce);
                    v.push(OAuthParameter::Prompt);
                    v.push(OAuthParameter::LoginHint);
                    v.push(OAuthParameter::DomainHint);
                },
                _ => {},
            },
            GrantType::DeviceCode => {},
            GrantType::OpenId => match request {
                GrantRequest::Authorization => {
                    v.push(OAuthParameter::ResponseMode);
                    v.push(OAuthParameter::State);
                    v.push(OAuthParameter::Prompt);
                    v.push(OAuthParameter::DomainHint);
                    v.push(OAuthParameter::LoginHint);
                },
                GrantRequest::AccessToken => {
                    v.push(OAuthParameter::Scope);
                    v.push(OAuthParameter::CodeVerifier);
                },
                GrantRequest::RefreshToken => {
                    v.push(OAuthParameter::Scope);
                },
            },
            GrantType::ClientCredentials => match request {
                GrantRequest::Authorization => {
                    v.push(OAuthParameter::State);
                },
                _ => {},
            },
            GrantType::ResourceOwnerPasswordCredentials => {
                v.push(OAuthParameter::Scope);
                v.push(OAuthParameter::ClientSecret);
            },
        }
        proof {
            assert(v@ =~= self.optional_spec(request));
        }
        v
    }

    /// All parameters this grant type and phase may carry: the required list
    /// followed by the optional list.
    pub fn available_credentials(self, request: GrantRequest) -> (r: Vec<OAuthParameter>)
        ensures
            r@ == self.available_spec(request),
    {
        let mut v = self.required_credentials(request);
        let mut opt = self.optional_credentials(request);
        v.append(&mut opt);
        v
    }
}

} // verus!
