//! Grant selection and deferred requests.
//!
//! A built [`OAuthSerializer`] hands out a [`GrantSelector`], which exposes
//! one constructor per grant type; each returns a handle bound to that grant
//! holding a copy of the store. The handles assemble request descriptors —
//! data values carrying a target URI and a form body, or the error captured
//! while assembling them. Nothing here performs a network call: a caller
//! unwraps a descriptor with `into_result` and performs the action itself.

use vstd::prelude::*;

use core::marker::PhantomData;

use crate::error::AuthError;
use crate::grants::{GrantRequest, GrantType};
use crate::params::OAuthParameter;
use crate::serializer::{
    auth_url_missing, auth_url_ok, auth_url_value, form_missing, form_ok, form_value, injected,
    store_view_eq, OAuthSerializer,
};

verus! {

/// A deferred browser-authorization action: a ready URI, or the error
/// captured while assembling it.
pub struct AuthorizationRequest {
    uri: String,
    error: Option<AuthError>,
}

impl AuthorizationRequest {
    /// The URI to open; meaningful only without a captured error.
    pub closed spec fn uri_spec(self) -> Seq<char> {
        self.uri@
    }

    /// The error captured while assembling, if any.
    pub closed spec fn error_spec(self) -> Option<AuthError> {
        self.error
    }

    /// The URI to open, or the captured error. This is the whole action:
    /// opening a browser is the caller's business.
    pub fn into_result(self) -> (r: Result<String, AuthError>)
        ensures
            self.error_spec() matches Some(e) ==> r == Err::<String, AuthError>(e),
            self.error_spec() is None ==> (r matches Ok(u) && u@ == self.uri_spec()),
    {
        match self.error {
            Some(e) => Err(e),
            None => Ok(self.uri),
        }
    }
}

/// A deferred token-endpoint POST: a target URI and a form body, or the
/// error captured while assembling them.
pub struct AccessTokenRequest {
    uri: String,
    params: Vec<(String, String)>,
    error: Option<AuthError>,
}

impl AccessTokenRequest {
    /// The target URI; meaningful only without a captured error.
    pub closed spec fn uri_spec(self) -> Seq<char> {
        self.uri@
    }

    /// The form body; meaningful only without a captured error.
    pub closed spec fn params_spec(self) -> Seq<(Seq<char>, Seq<char>)> {
        crate::encode::pair_views(self.params@)
    }

    /// The error captured while assembling, if any.
    pub closed spec fn error_spec(self) -> Option<AuthError> {
        self.error
    }

    /// The target URI and form body, or the captured error. Sending the
    /// POST is the caller's business.
    pub fn into_result(self) -> (r: Result<(String, Vec<(String, String)>), AuthError>)
        ensures
            self.error_spec() matches Some(e) ==> r == Err::<
                (String, Vec<(String, String)>),
                AuthError,
            >(e),
            self.error_spec() is None ==> (r matches Ok(p) && p.0@ == self.uri_spec()
                && crate::encode::pair_views(p.1@) == self.params_spec()),
    {
        match self.error {
            Some(e) => Err(e),
            None => Ok((self.uri, self.params)),
        }
    }
}

/// A deferred token-endpoint POST meant to be sent from a non-blocking
/// transport; the descriptor itself is the same plain data.
pub struct AsyncAccessTokenRequest {
    uri: String,
    params: Vec<(String, String)>,
    error: Option<AuthError>,
}

impl AsyncAccessTokenRequest {
    /// The target URI; meaningful only without a captured error.
    pub closed spec fn uri_spec(self) -> Seq<char> {
        self.uri@
    }

    /// The form body; meaningful only without a captured error.
    pub closed spec fn params_spec(self) -> Seq<(Seq<char>, Seq<char>)> {
        crate::encode::pair_views(self.params@)
    }

    /// The error captured while assembling, if any.
    pub closed spec fn error_spec(self) -> Option<AuthError> {
        self.error
    }

    /// The target URI and form body, or the captured error.
    pub fn into_result(self) -> (r: Result<(String, Vec<(String, String)>), AuthError>)
        ensures
            self.error_spec() matches Some(e) ==> r == Err::<
                (String, Vec<(String, String)>),
                AuthError,
            >(e),
            self.error_spec() is None ==> (r matches Ok(p) && p.0@ == self.uri_spec()
                && crate::encode::pair_views(p.1@) == self.params_spec()),
    {
        match self.error {
            Some(e) => Err(e),
            None => Ok((self.uri, self.params)),
        }
    }
}

impl OAuthSerializer {
    /// Assembles the parts of a deferred token request: injects fixed
    /// values, then yields the endpoint value and the form body, or the
    /// first error — an unsupported phase, then a missing endpoint, then a
    /// missing form field.
    fn token_request_for(
        &mut self,
        grant: GrantType,
        request_type: GrantRequest,
        endpoint: OAuthParameter,
    ) -> (r: (String, Vec<(String, String)>, Option<AuthError>))
        requires
            old(self).wf(),
        ensures
            final(self).wf(),
            !grant.supports_spec(request_type) ==> *final(self) == *old(self) && (
            r.2 matches Some(e) && e == (AuthError::GrantNotSupported {
                grant,
                request: request_type,
            })),
            grant.supports_spec(request_type) ==> injected(
                *old(self),
                *final(self),
                grant,
                request_type,
            ) && ({
                let s = *final(self);
                &&& (s.cred(endpoint) is None ==> (r.2 matches Some(e) && (
                e matches AuthError::RequiredParameterMissing { alias, .. } && alias@
                    == endpoint.alias_spec())))
                &&& (s.cred(endpoint) is Some && !form_ok(s, grant, request_type) ==> (
                r.2 matches Some(e) && (e matches AuthError::RequiredParameterMissing {
                    alias,
                    ..
                } && alias@ == form_missing(s, grant, request_type))))
                &&& (s.cred(endpoint) is Some && form_ok(s, grant, request_type) ==> r.2 is None
                    && Some(r.0@) == s.cred(endpoint) && crate::encode::pair_views(r.1@)
                    == form_value(s, grant, request_type))
            }),
    {
        let params_res = self.token_request_params(grant, request_type);
        match params_res {
            Err(e) => {
                if !grant.supports(request_type) {
                    return (String::new(), Vec::new(), Some(e));
                }
                match self.get_or_else(endpoint) {
                    Err(eu) => (String::new(), Vec::new(), Some(eu)),
                    Ok(_) => (String::new(), Vec::new(), Some(e)),
                }
            },
            Ok(p) => match self.get_or_else(endpoint) {
                Err(eu) => (String::new(), Vec::new(), Some(eu)),
                Ok(u) => (u, p, None),
            },
        }
    }

    /// Starts grant selection for requests sent from a blocking transport.
    /// The selector works on a copy of the store.
    pub fn build(&self) -> (r: GrantSelector<AccessTokenGrant>)
        requires
            self.wf(),
        ensures
            r.store().wf(),
            store_view_eq(*self, r.store()),
    {
        GrantSelector { oauth: self.clone(), t: PhantomData }
    }

    /// Starts grant selection for requests sent from a non-blocking
    /// transport. The selector works on a copy of the store.
    pub fn build_async(&self) -> (r: GrantSelector<AsyncAccessTokenGrant>)
        requires
            self.wf(),
        ensures
            r.store().wf(),
            store_view_eq(*self, r.store()),
    {
        GrantSelector { oauth: self.clone(), t: PhantomData }
    }
}

/// The step between a built store and a grant-specific handle: one
/// constructor per grant type. The type parameter records whether the
/// terminal requests are meant for a blocking or a non-blocking transport.
pub struct GrantSelector<T> {
    oauth: OAuthSerializer,
    t: PhantomData<T>,
}

impl<T> GrantSelector<T> {
    /// The store this selector carries.
    pub closed spec fn store(self) -> OAuthSerializer {
        self.oauth
    }
}

impl GrantSelector<AccessTokenGrant> {
    /// Selects the legacy token flow.
    pub fn token_flow(self) -> (r: ImplicitGrant)
        ensures
            r.store() == self.store(),
            r.grant_spec() == GrantType::TokenFlow,
    {
        ImplicitGrant { oauth: self.oauth, grant: GrantType::TokenFlow }
    }

    /// Selects the legacy code flow.
    pub fn code_flow(self) -> (r: AccessTokenGrant)
        ensures
            r.store() == self.store(),
            r.grant_spec() == GrantType::CodeFlow,
    {
        AccessTokenGrant { oauth: self.oauth, grant: GrantType::CodeFlow }
    }

    /// Selects the implicit grant.
    pub fn implicit_grant(self) -> (r: ImplicitGrant)
        ensures
            r.store() == self.store(),
            r.grant_spec() == GrantType::Implicit,
    {
        ImplicitGrant { oauth: self.oauth, grant: GrantType::Implicit }
    }

    /// Selects the authorization code grant.
    pub fn authorization_code_grant(self) -> (r: AccessTokenGrant)
        ensures
            r.store() == self.store(),
            r.grant_spec() == GrantType::AuthorizationCode,
    {
        AccessTokenGrant { oauth: self.oauth, grant: GrantType::AuthorizationCode }
    }

    /// Selects the device authorization grant.
    pub fn device_code(self) -> (r: DeviceCodeGrant)
        ensures
            r.store() == self.store(),
            r.grant_spec() == GrantType::DeviceCode,
    {
        DeviceCodeGrant { oauth: self.oauth, grant: GrantType::DeviceCode }
    }

    /// Selects the OpenID Connect grant.
    pub fn open_id_connect(self) -> (r: AccessTokenGrant)
        ensures
            r.store() == self.store(),
            r.grant_spec() == GrantType::OpenId,
    {
        AccessTokenGrant { oauth: self.oauth, grant: GrantType::OpenId }
    }

    /// Selects the client credentials grant.
    pub fn client_credentials(self) -> (r: AccessTokenGrant)
        ensures
            r.store() == self.store(),
            r.grant_spec() == GrantType::ClientCredentials,
    {
        AccessTokenGrant { oauth: self.oauth, grant: GrantType::ClientCredentials }
    }

    /// Selects the resource owner password credentials grant.
    pub fn resource_owner_password_credentials(self) -> (r: AccessTokenGrant)
        ensures
            r.store() == self.store(),
            r.grant_spec() == GrantType::ResourceOwnerPasswordCredentials,
    {
        AccessTokenGrant { oauth: self.oauth, grant: GrantType::ResourceOwnerPasswordCredentials }
    }
}

impl GrantSelector<AsyncAccessTokenGrant> {
    /// Selects the legacy token flow.
    pub fn token_flow(self) -> (r: ImplicitGrant)
        ensures
            r.store() == self.store(),
            r.grant_spec() == GrantType::TokenFlow,
    {
        ImplicitGrant { oauth: self.oauth, grant: GrantType::TokenFlow }
    }

    /// Selects the legacy code flow.
    pub fn code_flow(self) -> (r: AsyncAccessTokenGrant)
        ensures
            r.store() == self.store(),
            r.grant_spec() == GrantType::CodeFlow,
    {
        AsyncAccessTokenGrant { oauth: self.oauth, grant: GrantType::CodeFlow }
    }

    /// Selects the implicit grant.
    pub fn implicit_grant(self) -> (r: ImplicitGrant)
        ensures
            r.store() == self.store(),
            r.grant_spec() == GrantType::Implicit,
    {
        ImplicitGrant { oauth: self.oauth, grant: GrantType::Implicit }
    }

    /// Selects the authorization code grant.
    pub fn authorization_code_grant(self) -> (r: AsyncAccessTokenGrant)
        ensures
            r.store() == self.store(),
            r.grant_spec() == GrantType::AuthorizationCode,
    {
        AsyncAccessTokenGrant { oauth: self.oauth, grant: GrantType::AuthorizationCode }
    }

    /// Selects the device authorization grant.
    pub fn device_code(self) -> (r: AsyncDeviceCodeGrant)
        ensures
            r.store() == self.store(),
            r.grant_spec() == GrantType::DeviceCode,
    {
        AsyncDeviceCodeGrant { oauth: self.oauth, grant: GrantType::DeviceCode }
    }

    /// Selects the OpenID Connect grant.
    pub fn open_id_connect(self) -> (r: AsyncAccessTokenGrant)
        ensures
            r.store() == self.store(),
            r.grant_spec() == GrantType::OpenId,
    {
        AsyncAccessTokenGrant { oauth: self.oauth, grant: GrantType::OpenId }
    }

    /// Selects the client credentials grant.
    pub fn client_credentials(self) -> (r: AsyncAccessTokenGrant)
        ensures
            r.store() == self.store(),
            r.grant_spec() == GrantType::ClientCredentials,
    {
        AsyncAccessTokenGrant { oauth: self.oauth, grant: GrantType::ClientCredentials }
    }

    /// Selects the resource owner password credentials grant.
    pub fn resource_owner_password_credentials(self) -> (r: AsyncAccessTokenGrant)
        ensures
            r.store() == self.store(),
            r.grant_spec() == GrantType::ResourceOwnerPasswordCredentials,
    {
        AsyncAccessTokenGrant {
            oauth: self.oauth,
            grant: GrantType::ResourceOwnerPasswordCredentials,
        }
    }
}

/// A handle for the grants whose token rides back in the authorization
/// redirect itself: the token flow and the implicit grant.
pub struct ImplicitGrant {
    oauth: OAuthSerializer,
    grant: GrantType,
}

impl ImplicitGrant {
    /// The store this handle carries.
    pub closed spec fn store(self) -> OAuthSerializer {
        self.oauth
    }

    /// The grant type this handle is bound to.
    pub closed spec fn grant_spec(self) -> GrantType {
        self.grant
    }

    /// The configured authorization endpoint, after injecting the fixed
    /// values of the authorization phase.
    pub fn url(&mut self) -> (r: Result<String, AuthError>)
        requires
            old(self).store().wf(),
        ensures
            final(self).store().wf(),
            final(self).grant_spec() == old(self).grant_spec(),
            injected(
                old(self).store(),
                final(self).store(),
                old(self).grant_spec(),
                GrantRequest::Authorization,
            ),
            r is Ok <==> final(self).store().cred(OAuthParameter::AuthorizationUrl) is Some,
            r matches Ok(u) ==> Some(u@) == final(self).store().cred(
                OAuthParameter::AuthorizationUrl,
            ),
    {
        self.oauth.pre_request_check(self.grant, GrantRequest::Authorization);
        self.oauth.get_or_else(OAuthParameter::AuthorizationUrl)
    }

    /// A deferred browser-authorization action: the full authorization URL,
    /// or the error captured while assembling it.
    pub fn browser_authorization(&mut self) -> (r: AuthorizationRequest)
        requires
            old(self).store().wf(),
        ensures
            final(self).store().wf(),
            final(self).grant_spec() == old(self).grant_spec(),
            injected(
                old(self).store(),
                final(self).store(),
                old(self).grant_spec(),
                GrantRequest::Authorization,
            ),
            r.error_spec() is None <==> auth_url_ok(final(self).store(), old(self).grant_spec()),
            r.error_spec() is None ==> r.uri_spec() == auth_url_value(
                final(self).store(),
                old(self).grant_spec(),
            ),
            r.error_spec() matches Some(e) ==> (
            e matches AuthError::RequiredParameterMissing { alias, .. } && alias@
                == auth_url_missing(final(self).store(), old(self).grant_spec())),
    {
        match self.oauth.authorization_url_for(self.grant) {
            Ok(u) => AuthorizationRequest { uri: u, error: None },
            Err(e) => AuthorizationRequest { uri: String::new(), error: Some(e) },
        }
    }
}

/// A handle bound to the device authorization grant, for a blocking
/// transport.
pub struct DeviceCodeGrant {
    oauth: OAuthSerializer,
    grant: GrantType,
}

/// A handle bound to the device authorization grant, for a non-blocking
/// transport.
pub struct AsyncDeviceCodeGrant {
    oauth: OAuthSerializer,
    grant: GrantType,
}

/// A handle bound to a grant with a token-endpoint exchange, for a blocking
/// transport.
pub struct AccessTokenGrant {
    oauth: OAuthSerializer,
    grant: GrantType,
}

/// A handle bound to a grant with a token-endpoint exchange, for a
/// non-blocking transport.
pub struct AsyncAccessTokenGrant {
    oauth: OAuthSerializer,
    grant: GrantType,
}

impl AccessTokenGrant {
    /// The store this handle carries.
    pub closed spec fn store(self) -> OAuthSerializer {
        self.oauth
    }

    /// The grant type this handle is bound to.
    pub closed spec fn grant_spec(self) -> GrantType {
        self.grant
    }

    /// The full authorization URL for this grant: fixed values injected,
    /// required fields validated in declared order, present optional fields
    /// appended.
    pub fn authorization_url(&mut self) -> (r: Result<String, AuthError>)
        requires
            old(self).store().wf(),
        ensures
            final(self).store().wf(),
            final(self).grant_spec() == old(self).grant_spec(),
            injected(
                old(self).store(),
                final(self).store(),
                old(self).grant_spec(),
                GrantRequest::Authorization,
            ),
            r is Ok <==> auth_url_ok(final(self).store(), old(self).grant_spec()),
            r matches Ok(u) ==> u@ == auth_url_value(final(self).store(), old(self).grant_spec()),
            r matches Err(e) ==> (e matches AuthError::RequiredParameterMissing { alias, .. }
                && alias@ == auth_url_missing(final(self).store(), old(self).grant_spec())),
    {
        self.oauth.authorization_url_for(self.grant)
    }

    /// A deferred browser-authorization action: the full authorization URL,
    /// or the error captured while assembling it.
    pub fn browser_authorization(&mut self) -> (r: AuthorizationRequest)
        requires
            old(self).store().wf(),
        ensures
            final(self).store().wf(),
            final(self).grant_spec() == old(self).grant_spec(),
            r.error_spec() is None <==> auth_url_ok(final(self).store(), old(self).grant_spec()),
            r.error_spec() is None ==> r.uri_spec() == auth_url_value(
                final(self).store(),
                old(self).grant_spec(),
            ),
    {
        match self.authorization_url() {
            Ok(u) => AuthorizationRequest { uri: u, error: None },
            Err(e) => AuthorizationRequest { uri: String::new(), error: Some(e) },
        }
    }

    /// A deferred access-token request: the access-token endpoint and the
    /// form body of the token phase, or the error captured while
    /// assembling them.
    pub fn access_token(&mut self) -> (r: AccessTokenRequest)
        requires
            old(self).store().wf(),
        ensures
            final(self).store().wf(),
            final(self).grant_spec() == old(self).grant_spec(),
            token_request_ensures(
                old(self).store(),
                final(self).store(),
                old(self).grant_spec(),
                GrantRequest::AccessToken,
                OAuthParameter::AccessTokenUrl,
                r.uri_spec(),
                r.params_spec(),
                r.error_spec(),
            ),
    {
        let (uri, params, error) = self.oauth.token_request_for(
            self.grant,
            GrantRequest::AccessToken,
            OAuthParameter::AccessTokenUrl,
        );
        AccessTokenRequest { uri, params, error }
    }

    /// A deferred refresh-token request: the refresh-token endpoint and the
    /// form body of the refresh phase, or the error captured while
    /// assembling them. Assumes a refresh token is available.
    pub fn refresh_token(&mut self) -> (r: AccessTokenRequest)
        requires
            old(self).store().wf(),
        ensures
            final(self).store().wf(),
            final(self).grant_spec() == old(self).grant_spec(),
            token_request_ensures(
                old(self).store(),
                final(self).store(),
                old(self).grant_spec(),
                GrantRequest::RefreshToken,
                OAuthParameter::RefreshTokenUrl,
                r.uri_spec(),
                r.params_spec(),
                r.error_spec(),
            ),
    {
        let (uri, params, error) = self.oauth.token_request_for(
            self.grant,
            GrantRequest::RefreshToken,
            OAuthParameter::RefreshTokenUrl,
        );
        AccessTokenRequest { uri, params, error }
    }
}

impl AsyncAccessTokenGrant {
    /// The store this handle carries.
    pub closed spec fn store(self) -> OAuthSerializer {
        self.oauth
    }

    /// The grant type this handle is bound to.
    pub closed spec fn grant_spec(self) -> GrantType {
        self.grant
    }

    /// The full authorization URL for this grant.
    pub fn authorization_url(&mut self) -> (r: Result<String, AuthError>)
        requires
            old(self).store().wf(),
        ensures
            final(self).store().wf(),
            final(self).grant_spec() == old(self).grant_spec(),
            injected(
                old(self).store(),
                final(self).store(),
                old(self).grant_spec(),
                GrantRequest::Authorization,
            ),
            r is Ok <==> auth_url_ok(final(self).store(), old(self).grant_spec()),
            r matches Ok(u) ==> u@ == auth_url_value(final(self).store(), old(self).grant_spec()),
            r matches Err(e) ==> (e matches AuthError::RequiredParameterMissing { alias, .. }
                && alias@ == auth_url_missing(final(self).store(), old(self).grant_spec())),
    {
        self.oauth.authorization_url_for(self.grant)
    }

    /// A deferred browser-authorization action.
    pub fn browser_authorization(&mut self) -> (r: AuthorizationRequest)
        requires
            old(self).store().wf(),
        ensures
            final(self).store().wf(),
            final(self).grant_spec() == old(self).grant_spec(),
            r.error_spec() is None <==> auth_url_ok(final(self).store(), old(self).grant_spec()),
            r.error_spec() is None ==> r.uri_spec() == auth_url_value(
                final(self).store(),
                old(self).grant_spec(),
            ),
    {
        match self.authorization_url() {
            Ok(u) => AuthorizationRequest { uri: u, error: None },
            Err(e) => AuthorizationRequest { uri: String::new(), error: Some(e) },
        }
    }

    /// A deferred access-token request.
    pub fn access_token(&mut self) -> (r: AsyncAccessTokenRequest)
        requires
            old(self).store().wf(),
        ensures
            final(self).store().wf(),
            final(self).grant_spec() == old(self).grant_spec(),
            token_request_ensures(
                old(self).store(),
                final(self).store(),
                old(self).grant_spec(),
                GrantRequest::AccessToken,
                OAuthParameter::AccessTokenUrl,
                r.uri_spec(),
                r.params_spec(),
                r.error_spec(),
            ),
    {
        let (uri, params, error) = self.oauth.token_request_for(
            self.grant,
            GrantRequest::AccessToken,
            OAuthParameter::AccessTokenUrl,
        );
        AsyncAccessTokenRequest { uri, params, error }
    }

    /// A deferred refresh-token request. Assumes a refresh token is
    /// available.
    pub fn refresh_token(&mut self) -> (r: AsyncAccessTokenRequest)
        requires
            old(self).store().wf(),
        ensures
            final(self).store().wf(),
            final(self).grant_spec() == old(self).grant_spec(),
            token_request_ensures(
                old(self).store(),
                final(self).store(),
                old(self).grant_spec(),
                GrantRequest::RefreshToken,
                OAuthParameter::RefreshTokenUrl,
                r.uri_spec(),
                r.params_spec(),
                r.error_spec(),
            ),
    {
        let (uri, params, error) = self.oauth.token_request_for(
            self.grant,
            GrantRequest::RefreshToken,
            OAuthParameter::RefreshTokenUrl,
        );
        AsyncAccessTokenRequest { uri, params, error }
    }
}

impl DeviceCodeGrant {
    /// The store this handle carries.
    pub closed spec fn store(self) -> OAuthSerializer {
        self.oauth
    }

    /// The grant type this handle is bound to.
    pub closed spec fn grant_spec(self) -> GrantType {
        self.grant
    }

    /// The full device-authorization URL.
    pub fn authorization_url(&mut self) -> (r: Result<String, AuthError>)
        requires
            old(self).store().wf(),
        ensures
            final(self).store().wf(),
            final(self).grant_spec() == old(self).grant_spec(),
            injected(
                old(self).store(),
                final(self).store(),
                old(self).grant_spec(),
                GrantRequest::Authorization,
            ),
            r is Ok <==> auth_url_ok(final(self).store(), old(self).grant_spec()),
            r matches Ok(u) ==> u@ == auth_url_value(final(self).store(), old(self).grant_spec()),
            r matches Err(e) ==> (e matches AuthError::RequiredParameterMissing { alias, .. }
                && alias@ == auth_url_missing(final(self).store(), old(self).grant_spec())),
    {
        self.oauth.authorization_url_for(self.grant)
    }

    /// A deferred device-authorization POST: the authorization endpoint and
    /// the form body of the authorization phase.
    pub fn authorization(&mut self) -> (r: AccessTokenRequest)
        requires
            old(self).store().wf(),
        ensures
            final(self).store().wf(),
            final(self).grant_spec() == old(self).grant_spec(),
            token_request_ensures(
                old(self).store(),
                final(self).store(),
                old(self).grant_spec(),
                GrantRequest::Authorization,
                OAuthParameter::AuthorizationUrl,
                r.uri_spec(),
                r.params_spec(),
                r.error_spec(),
            ),
    {
        let (uri, params, error) = self.oauth.token_request_for(
            self.grant,
            GrantRequest::Authorization,
            OAuthParameter::AuthorizationUrl,
        );
        AccessTokenRequest { uri, params, error }
    }

    /// A deferred access-token request for the device grant.
    pub fn access_token(&mut self) -> (r: AccessTokenRequest)
        requires
            old(self).store().wf(),
        ensures
            final(self).store().wf(),
            final(self).grant_spec() == old(self).grant_spec(),
            token_request_ensures(
                old(self).store(),
                final(self).store(),
                old(self).grant_spec(),
                GrantRequest::AccessToken,
                OAuthParameter::AccessTokenUrl,
                r.uri_spec(),
                r.params_spec(),
                r.error_spec(),
            ),
    {
        let (uri, params, error) = self.oauth.token_request_for(
            self.grant,
            GrantRequest::AccessToken,
            OAuthParameter::AccessTokenUrl,
        );
        AccessTokenRequest { uri, params, error }
    }

    /// A deferred refresh-token request for the device grant. The device
    /// grant reuses the access-token field set here; only the injected
    /// grant type differs.
    pub fn refresh_token(&mut self) -> (r: AccessTokenRequest)
        requires
            old(self).store().wf(),
        ensures
            final(self).store().wf(),
            final(self).grant_spec() == old(self).grant_spec(),
            token_request_ensures(
                old(self).store(),
                final(self).store(),
                old(self).grant_spec(),
                GrantRequest::RefreshToken,
                OAuthParameter::RefreshTokenUrl,
                r.uri_spec(),
                r.params_spec(),
                r.error_spec(),
            ),
    {
        let (uri, params, error) = self.oauth.token_request_for(
            self.grant,
            GrantRequest::RefreshToken,
            OAuthParameter::RefreshTokenUrl,
        );
        AccessTokenRequest { uri, params, error }
    }
}

impl AsyncDeviceCodeGrant {
    /// The store this handle carries.
    pub closed spec fn store(self) -> OAuthSerializer {
        self.oauth
    }

    /// The grant type this handle is bound to.
    pub closed spec fn grant_spec(self) -> GrantType {
        self.grant
    }

    /// The full device-authorization URL.
    pub fn authorization_url(&mut self) -> (r: Result<String, AuthError>)
        requires
            old(self).store().wf(),
        ensures
            final(self).store().wf(),
            final(self).grant_spec() == old(self).grant_spec(),
            injected(
                old(self).store(),
                final(self).store(),
                old(self).grant_spec(),
                GrantRequest::Authorization,
            ),
            r is Ok <==> auth_url_ok(final(self).store(), old(self).grant_spec()),
            r matches Ok(u) ==> u@ == auth_url_value(final(self).store(), old(self).grant_spec()),
            r matches Err(e) ==> (e matches AuthError::RequiredParameterMissing { alias, .. }
                && alias@ == auth_url_missing(final(self).store(), old(self).grant_spec())),
    {
        self.oauth.authorization_url_for(self.grant)
    }

    /// A deferred device-authorization POST.
    pub fn authorization(&mut self) -> (r: AsyncAccessTokenRequest)
        requires
            old(self).store().wf(),
        ensures
            final(self).store().wf(),
            final(self).grant_spec() == old(self).grant_spec(),
            token_request_ensures(
                old(self).store(),
                final(self).store(),
                old(self).grant_spec(),
                GrantRequest::Authorization,
                OAuthParameter::AuthorizationUrl,
                r.uri_spec(),
                r.params_spec(),
                r.error_spec(),
            ),
    {
        let (uri, params, error) = self.oauth.token_request_for(
            self.grant,
            GrantRequest::Authorization,
            OAuthParameter::AuthorizationUrl,
        );
        AsyncAccessTokenRequest { uri, params, error }
    }

    /// A deferred access-token request for the device grant.
    pub fn access_token(&mut self) -> (r: AsyncAccessTokenRequest)
        requires
            old(self).store().wf(),
        ensures
            final(self).store().wf(),
            final(self).grant_spec() == old(self).grant_spec(),
            token_request_ensures(
                old(self).store(),
                final(self).store(),
                old(self).grant_spec(),
                GrantRequest::AccessToken,
                OAuthParameter::AccessTokenUrl,
                r.uri_spec(),
                r.params_spec(),
                r.error_spec(),
            ),
    {
        let (uri, params, error) = self.oauth.token_request_for(
            self.grant,
            GrantRequest::AccessToken,
            OAuthParameter::AccessTokenUrl,
        );
        AsyncAccessTokenRequest { uri, params, error }
    }

    /// A deferred refresh-token request for the device grant.
    pub fn refresh_token(&mut self) -> (r: AsyncAccessTokenRequest)
        requires
            old(self).store().wf(),
        ensures
            final(self).store().wf(),
            final(self).grant_spec() == old(self).grant_spec(),
            token_request_ensures(
                old(self).store(),
                final(self).store(),
                old(self).grant_spec(),
                GrantRequest::RefreshToken,
                OAuthParameter::RefreshTokenUrl,
                r.uri_spec(),
                r.params_spec(),
                r.error_spec(),
            ),
    {
        let (uri, params, error) = self.oauth.token_request_for(
            self.grant,
            GrantRequest::RefreshToken,
            OAuthParameter::RefreshTokenUrl,
        );
        AsyncAccessTokenRequest { uri, params, error }
    }
}

/// What a deferred token request guarantees: either the unsupported-phase
/// error, or a missing endpoint, or a missing form field, or the exact
/// endpoint value and form body of the injected store.
pub open spec fn token_request_ensures(
    before: OAuthSerializer,
    after: OAuthSerializer,
    g: GrantType,
    rq: GrantRequest,
    endpoint: OAuthParameter,
    uri: Seq<char>,
    params: Seq<(Seq<char>, Seq<char>)>,
    error: Option<AuthError>,
) -> bool {
    &&& (!g.supports_spec(rq) ==> after == before && (error matches Some(e) && e
        == (AuthError::GrantNotSupported { grant: g, request: rq })))
    &&& (g.supports_spec(rq) ==> injected(before, after, g, rq) && {
        &&& (after.cred(endpoint) is None ==> (error matches Some(e) && (
        e matches AuthError::RequiredParameterMissing { alias, .. } && alias@
            == endpoint.alias_spec())))
        &&& (after.cred(endpoint) is Some && !form_ok(after, g, rq) ==> (error matches Some(e)
            && (e matches AuthError::RequiredParameterMissing { alias, .. } && alias@
            == form_missing(after, g, rq))))
        &&& (after.cred(endpoint) is Some && form_ok(after, g, rq) ==> error is None && Some(uri)
            == after.cred(endpoint) && params == form_value(after, g, rq))
    })
}

} // verus!
