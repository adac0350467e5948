//! The authorization-code credential: what a client needs to exchange an
//! authorization code — or a refresh token, but never both — for an access
//! token at the token endpoint.

use vstd::prelude::*;
use vstd::string::StringExecFns;

use crate::capability::{is_valid_url, parses_as_url};
use crate::error::AuthError;
use crate::grants::GrantType;
use crate::identity::{Authority, AzureCloudInstance};
use crate::serializer::host_token_url;
use crate::text::{clone_opt_string, clone_string_vec, is_blank, str_views, text_is_blank};

verus! {

/// The credential set of an authorization-code token request.
pub struct AuthorizationCodeCredential {
    /// The authorization code obtained from the authorization leg. Do not
    /// set a refresh token beside it.
    pub authorization_code: Option<String>,
    /// The refresh token for a refresh exchange. Do not set an
    /// authorization code beside it.
    pub refresh_token: Option<String>,
    pub client_id: String,
    pub client_secret: String,
    pub redirect_uri: String,
    pub scopes: Vec<String>,
    pub authority: Authority,
    pub code_verifier: Option<String>,
}

/// The form body of a code exchange: client id, client secret, redirect
/// URI, the code, the fixed grant type, then scope and code verifier when
/// set.
pub open spec fn code_exchange_pairs(m: AuthorizationCodeCredential, code: Seq<char>) -> Seq<
    (Seq<char>, Seq<char>),
> {
    seq![
        ("client_id"@, m.client_id@),
        ("client_secret"@, m.client_secret@),
        ("redirect_uri"@, m.redirect_uri@),
        ("code"@, code),
        ("grant_type"@, "authorization_code"@),
    ] + (if m.scopes@.len() > 0 {
        seq![("scope"@, crate::encode::join_with(str_views(m.scopes@), " "@))]
    } else {
        Seq::empty()
    }) + (match m.code_verifier {
        Some(v) => seq![("code_verifier"@, v@)],
        None => Seq::empty(),
    })
}

/// The form body of a refresh exchange: client id, client secret, the
/// refresh token, the fixed grant type, then scope when set.
pub open spec fn refresh_exchange_pairs(
    m: AuthorizationCodeCredential,
    refresh: Seq<char>,
) -> Seq<(Seq<char>, Seq<char>)> {
    seq![
        ("client_id"@, m.client_id@),
        ("client_secret"@, m.client_secret@),
        ("refresh_token"@, refresh),
        ("grant_type"@, "refresh_token"@),
    ] + (if m.scopes@.len() > 0 {
        seq![("scope"@, crate::encode::join_with(str_views(m.scopes@), " "@))]
    } else {
        Seq::empty()
    })
}

impl AuthorizationCodeCredential {
    pub fn new(client_id: &str, client_secret: &str, authorization_code: &str, redirect_uri: &str)
        -> (r: AuthorizationCodeCredential)
        ensures
            r.authorization_code matches Some(c) && c@ == authorization_code@,
            r.refresh_token is None,
            r.client_id@ == client_id@,
            r.client_secret@ == client_secret@,
            r.redirect_uri@ == redirect_uri@,
            r.scopes@.len() == 0,
            r.authority == Authority::Common,
            r.code_verifier is None,
    {
        AuthorizationCodeCredential {
            authorization_code: Some(authorization_code.to_owned()),
            refresh_token: None,
            client_id: client_id.to_owned(),
            client_secret: client_secret.to_owned(),
            redirect_uri: redirect_uri.to_owned(),
            scopes: Vec::new(),
            authority: Authority::Common,
            code_verifier: None,
        }
    }

    /// The grant type this credential belongs to.
    pub fn grant_type(&self) -> (r: GrantType)
        ensures
            r == GrantType::AuthorizationCode,
    {
        GrantType::AuthorizationCode
    }

    pub fn builder() -> (r: AuthorizationCodeCredentialBuilder)
        ensures
            r.credential().authorization_code is None,
            r.credential().refresh_token is None,
            r.credential().client_id@.len() == 0,
            r.credential().client_secret@.len() == 0,
            r.credential().redirect_uri@.len() == 0,
            r.credential().scopes@.len() == 0,
            r.credential().authority == Authority::Common,
            r.credential().code_verifier is None,
    {
        AuthorizationCodeCredentialBuilder {
            credential: AuthorizationCodeCredential {
                authorization_code: None,
                refresh_token: None,
                client_id: String::new(),
                client_secret: String::new(),
                redirect_uri: String::new(),
                scopes: Vec::new(),
                authority: Authority::Common,
                code_verifier: None,
            },
        }
    }

    /// The token endpoint this credential exchanges at, derived from the
    /// cloud host and the authority.
    pub fn uri(&self, azure_cloud_instance: &AzureCloudInstance) -> (r: Result<String, AuthError>)
        ensures
            r is Ok <==> parses_as_url(
                host_token_url(azure_cloud_instance.as_ref_spec(), self.authority.as_ref_spec()),
            ),
            r matches Ok(u) ==> u@ == host_token_url(
                azure_cloud_instance.as_ref_spec(),
                self.authority.as_ref_spec(),
            ),
            r matches Err(e) ==> e matches AuthError::InvalidUrl { .. },
    {
        let mut token_url = String::new();
        token_url.append(azure_cloud_instance.as_ref());
        token_url.append("/");
        token_url.append(self.authority.as_ref());
        token_url.append("/oauth2/v2.0/token");
        proof {
            assert(token_url@ =~= host_token_url(
                azure_cloud_instance.as_ref_spec(),
                self.authority.as_ref_spec(),
            ));
        }
        if is_valid_url(token_url.as_str()) {
            Ok(token_url)
        } else {
            let mut alias = String::new();
            alias.append("access_token_url");
            Err(AuthError::InvalidUrl { alias })
        }
    }

    /// The form body of the token request this credential describes.
    ///
    /// An authorization code and a refresh token are mutually exclusive:
    /// setting both is an error before anything else is looked at, and
    /// setting neither is one too. The client id and client secret must not
    /// be blank; neither may the chosen code or refresh token.
    pub fn form(&self) -> (r: Result<Vec<(String, String)>, AuthError>)
        ensures
            self.authorization_code is Some && self.refresh_token is Some ==> (
            r matches Err(e) && (e matches AuthError::RequiredParameterMissing { alias, hint }
                && alias@ == "code or refresh_token"@ && hint is Some)),
            !(self.authorization_code is Some && self.refresh_token is Some) && is_blank(
                self.client_id@,
            ) ==> (r matches Err(e) && (e matches AuthError::RequiredParameterMissing {
                alias,
                ..
            } && alias@ == "client_id"@)),
            !(self.authorization_code is Some && self.refresh_token is Some) && !is_blank(
                self.client_id@,
            ) && is_blank(self.client_secret@) ==> (r matches Err(e) && (
            e matches AuthError::RequiredParameterMissing { alias, .. } && alias@
                == "client_secret"@)),
            ({
                &&& !(self.authorization_code is Some && self.refresh_token is Some)
                &&& !is_blank(self.client_id@)
                &&& !is_blank(self.client_secret@)
            }) ==> match (self.refresh_token, self.authorization_code) {
                (Some(rt), _) => if is_blank(rt@) {
                    r matches Err(e) && (e matches AuthError::RequiredParameterMissing {
                        alias,
                        ..
                    } && alias@ == "refresh_token"@)
                } else {
                    r matches Ok(v) && crate::encode::pair_views(v@) == refresh_exchange_pairs(
                        *self,
                        rt@,
                    )
                },
                (None, Some(code)) => if is_blank(code@) {
                    r matches Err(e) && (e matches AuthError::RequiredParameterMissing {
                        alias,
                        ..
                    } && alias@ == "code"@)
                } else {
                    r matches Ok(v) && crate::encode::pair_views(v@) == code_exchange_pairs(
                        *self,
                        code@,
                    )
                },
                (None, None) => r matches Err(e) && (
                e matches AuthError::RequiredParameterMissing { alias, .. } && alias@
                    == "code or refresh_token"@),
            },
    {
        if self.authorization_code.is_some() && self.refresh_token.is_some() {
            let mut alias = String::new();
            alias.append("code or refresh_token");
            let mut hint = String::new();
            hint.append(
                "an authorization code and a refresh token are mutually exclusive; set only one",
            );
            return Err(AuthError::RequiredParameterMissing { alias, hint: Some(hint) });
        }
        if text_is_blank(self.client_id.as_str()) {
            return Err(AuthError::required("client_id"));
        }
        if text_is_blank(self.client_secret.as_str()) {
            return Err(AuthError::required("client_secret"));
        }
        let scope_value: Option<String> = if self.scopes.len() > 0 {
            Some(crate::encode::join_strings(&self.scopes, " "))
        } else {
            None
        };
        match &self.refresh_token {
            Some(rt) => {
                if text_is_blank(rt.as_str()) {
                    return Err(AuthError::required("refresh_token"));
                }
                let mut pairs: Vec<(String, String)> = Vec::new();
                pairs.push((String::from_str("client_id"), self.client_id.clone()));
                pairs.push((String::from_str("client_secret"), self.client_secret.clone()));
                pairs.push((String::from_str("refresh_token"), rt.clone()));
                pairs.push((String::from_str("grant_type"), String::from_str("refresh_token")));
                match scope_value {
                    Some(sv) => pairs.push((String::from_str("scope"), sv)),
                    None => {},
                }
                proof {
                    assert(crate::encode::pair_views(pairs@) =~~= refresh_exchange_pairs(
                        *self,
                        rt@,
                    ));
                }
                Ok(pairs)
            },
            None => match &self.authorization_code {
                Some(code) => {
                    if text_is_blank(code.as_str()) {
                        return Err(AuthError::required("code"));
                    }
                    let mut pairs: Vec<(String, String)> = Vec::new();
                    pairs.push((String::from_str("client_id"), self.client_id.clone()));
                    pairs.push((String::from_str("client_secret"), self.client_secret.clone()));
                    pairs.push((String::from_str("redirect_uri"), self.redirect_uri.clone()));
                    pairs.push((String::from_str("code"), code.clone()));
                    pairs.push(
                        (String::from_str("grant_type"), String::from_str("authorization_code")),
                    );
                    match scope_value {
                        Some(sv) => pairs.push((String::from_str("scope"), sv)),
                        None => {},
                    }
                    match &self.code_verifier {
                        Some(cv) => pairs.push((String::from_str("code_verifier"), cv.clone())),
                        None => {},
                    }
                    proof {
                        assert(crate::encode::pair_views(pairs@) =~~= code_exchange_pairs(
                            *self,
                            code@,
                        ));
                    }
                    Ok(pairs)
                },
                None => {
                    let mut alias = String::new();
                    alias.append("code or refresh_token");
                    let mut hint = String::new();
                    hint.append("either an authorization code or a refresh token is required");
                    Err(AuthError::RequiredParameterMissing { alias, hint: Some(hint) })
                },
            },
        }
    }
}

/// A fluent builder for [`AuthorizationCodeCredential`].
pub struct AuthorizationCodeCredentialBuilder {
    credential: AuthorizationCodeCredential,
}

impl AuthorizationCodeCredentialBuilder {
    /// The credential as set so far.
    pub closed spec fn credential(self) -> AuthorizationCodeCredential {
        self.credential
    }

    /// Sets the authorization code.
    pub fn with_authorization_code(&mut self, authorization_code: &str)
        ensures
            final(self).credential() == (AuthorizationCodeCredential {
                authorization_code: final(self).credential().authorization_code,
                ..old(self).credential()
            }),
            final(self).credential().authorization_code matches Some(c) && c@
                == authorization_code@,
    {
        self.credential.authorization_code = Some(authorization_code.to_owned());
    }

    /// Sets the refresh token and clears any authorization code, since the
    /// two are mutually exclusive.
    pub fn with_refresh_token(&mut self, refresh_token: &str)
        ensures
            final(self).credential() == (AuthorizationCodeCredential {
                authorization_code: None,
                refresh_token: final(self).credential().refresh_token,
                ..old(self).credential()
            }),
            final(self).credential().refresh_token matches Some(t) && t@ == refresh_token@,
    {
        self.credential.authorization_code = None;
        self.credential.refresh_token = Some(refresh_token.to_owned());
    }

    /// Sets the redirect URI.
    pub fn with_redirect_uri(&mut self, redirect_uri: &str)
        ensures
            final(self).credential() == (AuthorizationCodeCredential {
                redirect_uri: final(self).credential().redirect_uri,
                ..old(self).credential()
            }),
            final(self).credential().redirect_uri@ == redirect_uri@,
    {
        self.credential.redirect_uri = redirect_uri.to_owned();
    }

    /// Sets the client id.
    pub fn with_client_id(&mut self, client_id: &str)
        ensures
            final(self).credential() == (AuthorizationCodeCredential {
                client_id: final(self).credential().client_id,
                ..old(self).credential()
            }),
            final(self).credential().client_id@ == client_id@,
    {
        self.credential.client_id = client_id.to_owned();
    }

    /// Sets the client secret.
    pub fn with_client_secret(&mut self, client_secret: &str)
        ensures
            final(self).credential() == (AuthorizationCodeCredential {
                client_secret: final(self).credential().client_secret,
                ..old(self).credential()
            }),
            final(self).credential().client_secret@ == client_secret@,
    {
        self.credential.client_secret = client_secret.to_owned();
    }

    /// Selects the tenant by id, like `with_authority` with a tenant-id
    /// authority.
    pub fn with_tenant(&mut self, tenant: &str)
        ensures
            final(self).credential() == (AuthorizationCodeCredential {
                authority: final(self).credential().authority,
                ..old(self).credential()
            }),
            final(self).credential().authority matches Authority::TenantId(t) && t@ == tenant@,
    {
        self.credential.authority = Authority::TenantId(tenant.to_owned());
    }

    /// Sets the authority.
    pub fn with_authority(&mut self, authority: Authority)
        ensures
            final(self).credential() == (AuthorizationCodeCredential {
                authority: final(self).credential().authority,
                ..old(self).credential()
            }),
            final(self).credential().authority == authority,
    {
        self.credential.authority = authority;
    }

    /// Sets the PKCE code verifier.
    pub fn with_code_verifier(&mut self, code_verifier: &str)
        ensures
            final(self).credential() == (AuthorizationCodeCredential {
                code_verifier: final(self).credential().code_verifier,
                ..old(self).credential()
            }),
            final(self).credential().code_verifier matches Some(v) && v@ == code_verifier@,
    {
        self.credential.code_verifier = Some(code_verifier.to_owned());
    }

    /// Sets the scope list.
    pub fn with_scopes(&mut self, scopes: &Vec<String>)
        ensures
            final(self).credential() == (AuthorizationCodeCredential {
                scopes: final(self).credential().scopes,
                ..old(self).credential()
            }),
            final(self).credential().scopes@ == scopes@,
    {
        self.credential.scopes = clone_string_vec(scopes);
    }

    /// A builder pre-filled from the authorization leg's parameters: the
    /// scopes, client id, redirect URI, authority and code verifier carry
    /// over to the token leg.
    pub fn from_authorization_url(
        value: &crate::authorization_code_authorization_url::AuthorizationCodeAuthorizationUrl,
    ) -> (r: AuthorizationCodeCredentialBuilder)
        ensures
            r.credential().client_id@ == value.client_id@,
            r.credential().redirect_uri@ == value.redirect_uri@,
            r.credential().scopes@ == value.scopes@,
            r.credential().authority.as_ref_spec() == value.authority.as_ref_spec(),
            r.credential().code_verifier == value.code_verifier,
            r.credential().authorization_code is None,
            r.credential().refresh_token is None,
    {
        AuthorizationCodeCredentialBuilder {
            credential: AuthorizationCodeCredential {
                authorization_code: None,
                refresh_token: None,
                client_id: value.client_id.clone(),
                client_secret: String::new(),
                redirect_uri: value.redirect_uri.clone(),
                scopes: clone_string_vec(&value.scopes),
                authority: value.authority.clone(),
                code_verifier: clone_opt_string(&value.code_verifier),
            },
        }
    }

    /// The credential as set.
    pub fn build(&self) -> (r: AuthorizationCodeCredential)
        ensures
            r.authorization_code == self.credential().authorization_code,
            r.refresh_token == self.credential().refresh_token,
            r.client_id == self.credential().client_id,
            r.client_secret == self.credential().client_secret,
            r.redirect_uri == self.credential().redirect_uri,
            r.scopes@ == self.credential().scopes@,
            r.authority.as_ref_spec() == self.credential().authority.as_ref_spec(),
            (r.authority matches Authority::TenantId(_) <==> self.credential().authority
                matches Authority::TenantId(_)),
            r.code_verifier == self.credential().code_verifier,
    {
        AuthorizationCodeCredential {
            authorization_code: clone_opt_string(&self.credential.authorization_code),
            refresh_token: clone_opt_string(&self.credential.refresh_token),
            client_id: self.credential.client_id.clone(),
            client_secret: self.credential.client_secret.clone(),
            redirect_uri: self.credential.redirect_uri.clone(),
            scopes: clone_string_vec(&self.credential.scopes),
            authority: self.credential.authority.clone(),
            code_verifier: clone_opt_string(&self.credential.code_verifier),
        }
    }
}

} // verus!
