//! The credential store: every parameter value currently set for a flow,
//! the scope set, and an optionally stored token response.
//!
//! Values are keyed by [`OAuthParameter`]. URL-typed parameters are
//! validated when they are inserted: a value that does not parse as an
//! absolute URL is rejected immediately and the store is left unchanged.
//! The scope set is deduplicated and joined by a single space on encoding.

use vstd::prelude::*;
use vstd::string::StringExecFns;

use crate::capability::{is_valid_url, parses_as_url};
use crate::error::AuthError;
use crate::params::{OAuthParameter, PARAM_COUNT};
use crate::text::{clone_opt_string_vec, clone_string_vec, str_views};
use crate::token::{token_view_eq, MsalToken};

verus! {

/// The credential store behind a flow: parameter values, scopes, and an
/// optionally stored token response.
pub struct OAuthSerializer {
    access_token: Option<MsalToken>,
    scopes: Vec<String>,
    credentials: Vec<Option<String>>,
}

impl OAuthSerializer {
    /// The value stored for a parameter, if any.
    pub closed spec fn cred(self, p: OAuthParameter) -> Option<Seq<char>> {
        match self.credentials@[p.index_spec()] {
            Some(s) => Some(s@),
            None => None,
        }
    }

    /// The scope set, in insertion order.
    pub closed spec fn scope_list(self) -> Seq<Seq<char>> {
        str_views(self.scopes@)
    }

    /// The stored token response, if any.
    pub closed spec fn stored_token(self) -> Option<MsalToken> {
        self.access_token
    }

    /// Whether a token response is stored.
    pub open spec fn has_stored_token(self) -> bool {
        self.stored_token() is Some
    }

    /// The refresh token of the stored token response, if any.
    pub closed spec fn stored_refresh(self) -> Option<Seq<char>> {
        match self.access_token {
            Some(t) => t.refresh_token.deep_view(),
            None => None,
        }
    }

    /// The refresh token the encoder falls back to: an explicitly stored
    /// `refresh_token` parameter first, else the stored token response's.
    pub open spec fn refresh_fallback(self) -> Option<Seq<char>> {
        if self.cred(OAuthParameter::RefreshToken) is Some {
            self.cred(OAuthParameter::RefreshToken)
        } else {
            self.stored_refresh()
        }
    }

    /// Well-formedness: one slot per parameter, no duplicate scopes, and
    /// every URL-typed value already validated.
    pub closed spec fn wf(self) -> bool {
        &&& self.credentials@.len() == PARAM_COUNT
        &&& forall|i: int, j: int|
            0 <= i < j < self.scopes@.len() ==> self.scopes@[i]@ != self.scopes@[j]@
        &&& forall|p: OAuthParameter|
            p.is_url_kind_spec() && #[trigger] self.cred(p) is Some ==> parses_as_url(
                self.cred(p).unwrap(),
            )
    }

    /// Whether a parameter counts as present for encoding: the scope
    /// parameter means "the scope set is not empty", anything else means
    /// "a value is stored".
    pub open spec fn present(self, p: OAuthParameter) -> bool {
        if p == OAuthParameter::Scope {
            self.scope_list().len() > 0
        } else {
            self.cred(p) is Some
        }
    }

    /// The value a parameter contributes to an encoding: the scope set
    /// joined by a single space for the scope parameter, the stored value
    /// otherwise. Meaningful only when [`Self::present`] holds.
    pub open spec fn value_of(self, p: OAuthParameter) -> Seq<char> {
        if p == OAuthParameter::Scope {
            crate::encode::join_with(self.scope_list(), " "@)
        } else {
            self.cred(p).unwrap()
        }
    }
}

/// Whether `b` is `a` with exactly the parameter `p` set to `v`: everything
/// else — other parameters, scopes, the stored token — is unchanged.
pub open spec fn updated(
    a: OAuthSerializer,
    b: OAuthSerializer,
    p: OAuthParameter,
    v: Seq<char>,
) -> bool {
    &&& b.cred(p) == Some(v)
    &&& forall|q: OAuthParameter| q != p ==> #[trigger] b.cred(q) == a.cred(q)
    &&& b.scope_list() == a.scope_list()
    &&& b.stored_token() == a.stored_token()
}

impl OAuthSerializer {
    /// An empty store: no parameter set, no scopes, no stored token.
    pub fn new() -> (r: OAuthSerializer)
        ensures
            r.wf(),
            forall|p: OAuthParameter| #[trigger] r.cred(p) is None,
            r.scope_list() == Seq::<Seq<char>>::empty(),
            !r.has_stored_token(),
    {
        let mut credentials: Vec<Option<String>> = Vec::new();
        let mut i: usize = 0;
        while i < PARAM_COUNT
            invariant
                i <= PARAM_COUNT,
                credentials@.len() == i,
                forall|j: int| 0 <= j < i ==> credentials@[j] is None,
            decreases PARAM_COUNT - i,
        {
            credentials.push(None);
            i = i + 1;
        }
        let r = OAuthSerializer { access_token: None, scopes: Vec::new(), credentials };
        proof {
            assert forall|p: OAuthParameter| #[trigger] r.cred(p) is None by {
                assert(0 <= p.index_spec() < PARAM_COUNT);
            }
            assert(r.scope_list() =~= Seq::<Seq<char>>::empty());
        }
        r
    }

    /// Stores a value for a parameter. A URL-typed parameter whose value
    /// does not parse as an absolute URL is rejected, and the store is left
    /// unchanged; everything else always succeeds. The last write wins.
    pub fn insert(&mut self, oac: OAuthParameter, value: &str) -> (r: Result<(), AuthError>)
        requires
            old(self).wf(),
        ensures
            final(self).wf(),
            r is Ok <==> !(oac.is_url_kind_spec() && !parses_as_url(value@)),
            r is Ok ==> updated(*old(self), *final(self), oac, value@),
            r matches Err(e) ==> *final(self) == *old(self) && (e matches AuthError::InvalidUrl {
                alias,
            } && alias@ == oac.alias_spec()),
    {
        if oac.is_url_kind() && !is_valid_url(value) {
            return Err(AuthError::InvalidUrl { alias: oac.alias().to_owned() });
        }
        let idx = oac.index();
        self.credentials.set(idx, Some(value.to_owned()));
        proof {
            lemma_store_update(*old(self), *self, oac, value@);
        }
        Ok(())
    }

    /// Returns the stored value for a parameter, inserting the given one
    /// first if none is stored. An already-present value is never
    /// overwritten, so defaults injected this way respect caller choices.
    /// URL-typed values are validated exactly as in [`Self::insert`].
    pub fn entry_with(&mut self, oac: OAuthParameter, value: &str) -> (r: Result<
        String,
        AuthError,
    >)
        requires
            old(self).wf(),
        ensures
            final(self).wf(),
            r is Ok <==> !(oac.is_url_kind_spec() && !parses_as_url(value@)),
            r matches Err(e) ==> *final(self) == *old(self) && (e matches AuthError::InvalidUrl {
                alias,
            } && alias@ == oac.alias_spec()),
            r matches Ok(v) ==> match old(self).cred(oac) {
                Some(x) => *final(self) == *old(self) && v@ == x,
                None => updated(*old(self), *final(self), oac, value@) && v@ == value@,
            },
    {
        if oac.is_url_kind() && !is_valid_url(value) {
            return Err(AuthError::InvalidUrl { alias: oac.alias().to_owned() });
        }
        let idx = oac.index();
        match &self.credentials[idx] {
            Some(s) => Ok(s.clone()),
            None => {
                self.credentials.set(idx, Some(value.to_owned()));
                proof {
                    lemma_store_update(*old(self), *self, oac, value@);
                }
                Ok(value.to_owned())
            },
        }
    }

    /// The stored value of a parameter, if any.
    pub fn get(&self, oac: OAuthParameter) -> (r: Option<String>)
        requires
            self.wf(),
        ensures
            r.deep_view() == self.cred(oac),
    {
        let idx = oac.index();
        match &self.credentials[idx] {
            Some(s) => Some(s.clone()),
            None => None,
        }
    }

    /// Whether a parameter is set. The scope parameter is special-cased:
    /// it counts as set exactly when the scope set is non-empty.
    pub fn contains(&self, t: OAuthParameter) -> (r: bool)
        requires
            self.wf(),
        ensures
            r == self.present(t),
    {
        if matches!(t, OAuthParameter::Scope) {
            proof {
                assert(self.scope_list().len() == self.scopes@.len());
            }
            return self.scopes.len() > 0;
        }
        let idx = t.index();
        self.credentials[idx].is_some()
    }

    /// Removes the stored value of a parameter, if any.
    pub fn remove(&mut self, oac: OAuthParameter)
        requires
            old(self).wf(),
        ensures
            final(self).wf(),
            final(self).cred(oac) is None,
            forall|q: OAuthParameter|
                q != oac ==> #[trigger] final(self).cred(q) == old(self).cred(q),
            final(self).scope_list() == old(self).scope_list(),
            final(self).stored_token() == old(self).stored_token(),
    {
        let idx = oac.index();
        self.credentials.set(idx, None);
        proof {
            assert forall|q: OAuthParameter| q != oac implies #[trigger] self.cred(q) == old(
                self,
            ).cred(q) by {
                if q.index_spec() == oac.index_spec() {
                    crate::params::lemma_index_injective(q, oac);
                }
            }
            assert forall|p: OAuthParameter|
                p.is_url_kind_spec() && #[trigger] self.cred(p) is Some implies parses_as_url(
                self.cred(p).unwrap(),
            ) by {
                if p != oac {
                    assert(self.cred(p) == old(self).cred(p));
                }
            }
        }
    }
}

/// Whether `b` differs from `a` in no parameter, scope or stored token.
pub open spec fn same_store(a: OAuthSerializer, b: OAuthSerializer) -> bool {
    &&& forall|q: OAuthParameter| #[trigger] b.cred(q) == a.cred(q)
    &&& b.scope_list() == a.scope_list()
    &&& b.stored_token() == a.stored_token()
}

/// Whether `b` is `a` with only its scope set changed to `scopes`.
pub open spec fn scopes_updated(
    a: OAuthSerializer,
    b: OAuthSerializer,
    scopes: Seq<Seq<char>>,
) -> bool {
    &&& b.scope_list() == scopes
    &&& forall|q: OAuthParameter| #[trigger] b.cred(q) == a.cred(q)
    &&& b.stored_token() == a.stored_token()
}

/// The authorization endpoint derived from a tenant id.
pub open spec fn tenant_auth_url(value: Seq<char>) -> Seq<char> {
    "https://login.microsoftonline.com/"@ + value + "/oauth2/v2.0/authorize"@
}

/// The token endpoint derived from a tenant id.
pub open spec fn tenant_token_url(value: Seq<char>) -> Seq<char> {
    "https://login.microsoftonline.com/"@ + value + "/oauth2/v2.0/token"@
}

/// The authorization endpoint derived from a cloud host and an authority.
pub open spec fn host_auth_url(host: Seq<char>, authority: Seq<char>) -> Seq<char> {
    host + "/"@ + authority + "/oauth2/v2.0/authorize"@
}

/// The token endpoint derived from a cloud host and an authority.
pub open spec fn host_token_url(host: Seq<char>, authority: Seq<char>) -> Seq<char> {
    host + "/"@ + authority + "/oauth2/v2.0/token"@
}

/// The admin-consent endpoint derived from a cloud host and an authority.
pub open spec fn admin_consent_url(host: Seq<char>, authority: Seq<char>) -> Seq<char> {
    host + "/"@ + authority + "/adminconsent"@
}

/// Whether `b` is `a` with the three endpoint parameters set: the
/// authorization URL to `auth`, the access-token and refresh-token URLs to
/// `token`. Everything else is unchanged.
pub open spec fn urls_updated(
    a: OAuthSerializer,
    b: OAuthSerializer,
    auth: Seq<char>,
    token: Seq<char>,
) -> bool {
    &&& b.cred(OAuthParameter::AuthorizationUrl) == Some(auth)
    &&& b.cred(OAuthParameter::AccessTokenUrl) == Some(token)
    &&& b.cred(OAuthParameter::RefreshTokenUrl) == Some(token)
    &&& forall|q: OAuthParameter|
        q != OAuthParameter::AuthorizationUrl && q != OAuthParameter::AccessTokenUrl && q
            != OAuthParameter::RefreshTokenUrl ==> #[trigger] b.cred(q) == a.cred(q)
    &&& b.scope_list() == a.scope_list()
    &&& b.stored_token() == a.stored_token()
}

/// After writing slot `p`, only `p`'s value changed and the store is still
/// well-formed, provided a URL-typed value was validated first.
proof fn lemma_store_update(
    a: OAuthSerializer,
    b: OAuthSerializer,
    p: OAuthParameter,
    v: Seq<char>,
)
    requires
        a.wf(),
        b.credentials@ == a.credentials@.update(p.index_spec(), b.credentials@[p.index_spec()]),
        b.credentials@[p.index_spec()] matches Some(s) && s@ == v,
        b.scopes == a.scopes,
        b.access_token == a.access_token,
        p.is_url_kind_spec() ==> parses_as_url(v),
    ensures
        b.wf(),
        updated(a, b, p, v),
{
    assert(0 <= p.index_spec() < PARAM_COUNT);
    assert forall|q: OAuthParameter| q != p implies #[trigger] b.cred(q) == a.cred(q) by {
        if q.index_spec() == p.index_spec() {
            crate::params::lemma_index_injective(q, p);
        }
    }
    assert forall|q: OAuthParameter|
        q.is_url_kind_spec() && #[trigger] b.cred(q) is Some implies parses_as_url(
        b.cred(q).unwrap(),
    ) by {
        if q != p {
            assert(b.cred(q) == a.cred(q));
        }
    }
}

impl OAuthSerializer {
    /// Sets the client id.
    pub fn client_id(&mut self, value: &str)
        requires
            old(self).wf(),
        ensures
            final(self).wf(),
            updated(*old(self), *final(self), OAuthParameter::ClientId, value@),
    {
        let _ = self.insert(OAuthParameter::ClientId, value);
    }

    /// Sets the state value.
    pub fn state(&mut self, value: &str)
        requires
            old(self).wf(),
        ensures
            final(self).wf(),
            updated(*old(self), *final(self), OAuthParameter::State, value@),
    {
        let _ = self.insert(OAuthParameter::State, value);
    }

    /// Sets the client secret.
    pub fn client_secret(&mut self, value: &str)
        requires
            old(self).wf(),
        ensures
            final(self).wf(),
            updated(*old(self), *final(self), OAuthParameter::ClientSecret, value@),
    {
        let _ = self.insert(OAuthParameter::ClientSecret, value);
    }

    /// Sets the authorization endpoint URL; the value must parse as an
    /// absolute URL.
    pub fn authorization_url(&mut self, value: &str) -> (r: Result<(), AuthError>)
        requires
            old(self).wf(),
        ensures
            final(self).wf(),
            r is Ok <==> parses_as_url(value@),
            r is Ok ==> updated(*old(self), *final(self), OAuthParameter::AuthorizationUrl, value@),
            r matches Err(e) ==> *final(self) == *old(self) && (e matches AuthError::InvalidUrl {
                alias,
            } && alias@ == "authorization_url"@),
    {
        let r = self.insert(OAuthParameter::AuthorizationUrl, value);
        proof {
            reveal_strlit("authorization_url");
        }
        r
    }

    /// Sets the access-token endpoint URL; the value must parse as an
    /// absolute URL.
    pub fn access_token_url(&mut self, value: &str) -> (r: Result<(), AuthError>)
        requires
            old(self).wf(),
        ensures
            final(self).wf(),
            r is Ok <==> parses_as_url(value@),
            r is Ok ==> updated(*old(self), *final(self), OAuthParameter::AccessTokenUrl, value@),
            r matches Err(e) ==> *final(self) == *old(self) && (e matches AuthError::InvalidUrl {
                alias,
            } && alias@ == "access_token_url"@),
    {
        let r = self.insert(OAuthParameter::AccessTokenUrl, value);
        proof {
            reveal_strlit("access_token_url");
        }
        r
    }

    /// Sets the refresh-token endpoint URL; the value must parse as an
    /// absolute URL.
    pub fn refresh_token_url(&mut self, value: &str) -> (r: Result<(), AuthError>)
        requires
            old(self).wf(),
        ensures
            final(self).wf(),
            r is Ok <==> parses_as_url(value@),
            r is Ok ==> updated(*old(self), *final(self), OAuthParameter::RefreshTokenUrl, value@),
            r matches Err(e) ==> *final(self) == *old(self) && (e matches AuthError::InvalidUrl {
                alias,
            } && alias@ == "refresh_token_url"@),
    {
        let r = self.insert(OAuthParameter::RefreshTokenUrl, value);
        proof {
            reveal_strlit("refresh_token_url");
        }
        r
    }

    /// Sets the authorization, access-token and refresh-token endpoints
    /// derived from a tenant id.
    pub fn tenant_id(&mut self, value: &str) -> (r: Result<(), AuthError>)
        requires
            old(self).wf(),
        ensures
            final(self).wf(),
            r is Ok <==> parses_as_url(tenant_auth_url(value@)) && parses_as_url(
                tenant_token_url(value@),
            ),
            r is Ok ==> urls_updated(
                *old(self),
                *final(self),
                tenant_auth_url(value@),
                tenant_token_url(value@),
            ),
            final(self).scope_list() == old(self).scope_list(),
            final(self).stored_token() == old(self).stored_token(),
    {
        let mut auth_url = String::new();
        auth_url.append("https://login.microsoftonline.com/");
        auth_url.append(value);
        auth_url.append("/oauth2/v2.0/authorize");
        let mut token_url = String::new();
        token_url.append("https://login.microsoftonline.com/");
        token_url.append(value);
        token_url.append("/oauth2/v2.0/token");
        proof {
            assert(auth_url@ =~= tenant_auth_url(value@));
            assert(token_url@ =~= tenant_token_url(value@));
        }
        self.set_url_triple(auth_url.as_str(), token_url.as_str())
    }

    /// Sets the three endpoint parameters: the authorization URL to `auth`,
    /// the other two to `token`.
    fn set_url_triple(&mut self, auth: &str, token: &str) -> (r: Result<(), AuthError>)
        requires
            old(self).wf(),
        ensures
            final(self).wf(),
            r is Ok <==> parses_as_url(auth@) && parses_as_url(token@),
            r is Ok ==> urls_updated(*old(self), *final(self), auth@, token@),
            final(self).scope_list() == old(self).scope_list(),
            final(self).stored_token() == old(self).stored_token(),
    {
        let ghost s0 = *self;
        match self.insert(OAuthParameter::AuthorizationUrl, auth) {
            Ok(()) => {},
            Err(e) => {
                return Err(e);
            },
        }
        let ghost s1 = *self;
        match self.insert(OAuthParameter::AccessTokenUrl, token) {
            Ok(()) => {},
            Err(e) => {
                proof {
                    assert(self.scope_list() == s0.scope_list());
                    assert(self.stored_token() == s0.stored_token());
                }
                return Err(e);
            },
        }
        let ghost s2 = *self;
        let r = self.insert(OAuthParameter::RefreshTokenUrl, token);
        proof {
            if r is Ok {
                assert forall|q: OAuthParameter|
                    q != OAuthParameter::AuthorizationUrl && q != OAuthParameter::AccessTokenUrl
                        && q != OAuthParameter::RefreshTokenUrl implies #[trigger] self.cred(q)
                    == s0.cred(q) by {
                    assert(self.cred(q) == s2.cred(q));
                    assert(s2.cred(q) == s1.cred(q));
                    assert(s1.cred(q) == s0.cred(q));
                }
                assert(self.cred(OAuthParameter::AuthorizationUrl) == Some(auth@)) by {
                    assert(s1.cred(OAuthParameter::AuthorizationUrl) == Some(auth@));
                    assert(s2.cred(OAuthParameter::AuthorizationUrl) == s1.cred(
                        OAuthParameter::AuthorizationUrl,
                    ));
                    assert(self.cred(OAuthParameter::AuthorizationUrl) == s2.cred(
                        OAuthParameter::AuthorizationUrl,
                    ));
                };
                assert(self.cred(OAuthParameter::AccessTokenUrl) == Some(token@)) by {
                    assert(s2.cred(OAuthParameter::AccessTokenUrl) == Some(token@));
                    assert(self.cred(OAuthParameter::AccessTokenUrl) == s2.cred(
                        OAuthParameter::AccessTokenUrl,
                    ));
                };
            }
            assert(self.scope_list() == s0.scope_list());
            assert(self.stored_token() == s0.stored_token());
        }
        r
    }

    /// Sets the three endpoints derived from a cloud host and an authority.
    /// The OneDrive and SharePoint host keeps its legacy endpoints.
    pub fn authority(
        &mut self,
        host: &crate::identity::AzureCloudInstance,
        authority: &crate::identity::Authority,
    ) -> (r: Result<(), AuthError>)
        requires
            old(self).wf(),
        ensures
            final(self).wf(),
            *host == crate::identity::AzureCloudInstance::OneDriveAndSharePoint ==> {
                &&& r is Ok <==> parses_as_url("https://login.live.com"@)
                &&& (r is Ok ==> urls_updated(
                    *old(self),
                    *final(self),
                    "https://login.live.com"@,
                    "https://login.live.com"@,
                ))
            },
            *host != crate::identity::AzureCloudInstance::OneDriveAndSharePoint ==> {
                &&& r is Ok <==> parses_as_url(
                    host_auth_url(host.as_ref_spec(), authority.as_ref_spec()),
                ) && parses_as_url(host_token_url(host.as_ref_spec(), authority.as_ref_spec()))
                &&& r is Ok ==> urls_updated(
                    *old(self),
                    *final(self),
                    host_auth_url(host.as_ref_spec(), authority.as_ref_spec()),
                    host_token_url(host.as_ref_spec(), authority.as_ref_spec()),
                )
            },
            final(self).scope_list() == old(self).scope_list(),
            final(self).stored_token() == old(self).stored_token(),
    {
        if matches!(host, crate::identity::AzureCloudInstance::OneDriveAndSharePoint) {
            return self.legacy_authority();
        }
        let mut auth_url = String::new();
        auth_url.append(host.as_ref());
        auth_url.append("/");
        auth_url.append(authority.as_ref());
        auth_url.append("/oauth2/v2.0/authorize");
        let mut token_url = String::new();
        token_url.append(host.as_ref());
        token_url.append("/");
        token_url.append(authority.as_ref());
        token_url.append("/oauth2/v2.0/token");
        proof {
            assert(auth_url@ =~= host_auth_url(host.as_ref_spec(), authority.as_ref_spec()));
            assert(token_url@ =~= host_token_url(host.as_ref_spec(), authority.as_ref_spec()));
        }
        self.set_url_triple(auth_url.as_str(), token_url.as_str())
    }

    /// Sets the three endpoints for an admin-consent flow: the
    /// authorization URL points at the admin-consent endpoint.
    pub fn authority_admin_consent(
        &mut self,
        host: &crate::identity::AzureCloudInstance,
        authority: &crate::identity::Authority,
    ) -> (r: Result<(), AuthError>)
        requires
            old(self).wf(),
        ensures
            final(self).wf(),
            r is Ok <==> parses_as_url(admin_consent_url(host.as_ref_spec(), authority.as_ref_spec()))
                && parses_as_url(host_token_url(host.as_ref_spec(), authority.as_ref_spec())),
            r is Ok ==> urls_updated(
                *old(self),
                *final(self),
                admin_consent_url(host.as_ref_spec(), authority.as_ref_spec()),
                host_token_url(host.as_ref_spec(), authority.as_ref_spec()),
            ),
            final(self).scope_list() == old(self).scope_list(),
            final(self).stored_token() == old(self).stored_token(),
    {
        let mut auth_url = String::new();
        auth_url.append(host.as_ref());
        auth_url.append("/");
        auth_url.append(authority.as_ref());
        auth_url.append("/adminconsent");
        let mut token_url = String::new();
        token_url.append(host.as_ref());
        token_url.append("/");
        token_url.append(authority.as_ref());
        token_url.append("/oauth2/v2.0/token");
        proof {
            assert(auth_url@ =~= admin_consent_url(host.as_ref_spec(), authority.as_ref_spec()));
            assert(token_url@ =~= host_token_url(host.as_ref_spec(), authority.as_ref_spec()));
        }
        self.set_url_triple(auth_url.as_str(), token_url.as_str())
    }

    /// Sets the three endpoints to the legacy OneDrive and SharePoint host.
    pub fn legacy_authority(&mut self) -> (r: Result<(), AuthError>)
        requires
            old(self).wf(),
        ensures
            final(self).wf(),
            r is Ok <==> parses_as_url("https://login.live.com"@),
            r is Ok ==> urls_updated(
                *old(self),
                *final(self),
                "https://login.live.com"@,
                "https://login.live.com"@,
            ),
            final(self).scope_list() == old(self).scope_list(),
            final(self).stored_token() == old(self).stored_token(),
    {
        self.set_url_triple("https://login.live.com", "https://login.live.com")
    }

    /// Sets the redirect URI.
    pub fn redirect_uri(&mut self, value: &str)
        requires
            old(self).wf(),
        ensures
            final(self).wf(),
            updated(*old(self), *final(self), OAuthParameter::RedirectUri, value@),
    {
        let _ = self.insert(OAuthParameter::RedirectUri, value);
    }

    /// Sets the authorization code.
    pub fn authorization_code(&mut self, value: &str)
        requires
            old(self).wf(),
        ensures
            final(self).wf(),
            updated(*old(self), *final(self), OAuthParameter::AuthorizationCode, value@),
    {
        let _ = self.insert(OAuthParameter::AuthorizationCode, value);
    }

    /// Sets the response mode.
    pub fn response_mode(&mut self, value: &str)
        requires
            old(self).wf(),
        ensures
            final(self).wf(),
            updated(*old(self), *final(self), OAuthParameter::ResponseMode, value@),
    {
        let _ = self.insert(OAuthParameter::ResponseMode, value);
    }

    /// Sets the response type.
    pub fn response_type(&mut self, value: &str)
        requires
            old(self).wf(),
        ensures
            final(self).wf(),
            updated(*old(self), *final(self), OAuthParameter::ResponseType, value@),
    {
        let _ = self.insert(OAuthParameter::ResponseType, value);
    }

    /// Sets the response type from a list, joined by spaces.
    pub fn response_types(&mut self, value: &Vec<crate::identity::ResponseType>)
        requires
            old(self).wf(),
        ensures
            final(self).wf(),
            updated(
                *old(self),
                *final(self),
                OAuthParameter::ResponseType,
                crate::identity::response_types_query(value@),
            ),
    {
        let joined = crate::identity::join_response_types(value);
        let _ = self.insert(OAuthParameter::ResponseType, joined.as_str());
    }

    /// Sets the nonce.
    pub fn nonce(&mut self, value: &str)
        requires
            old(self).wf(),
        ensures
            final(self).wf(),
            updated(*old(self), *final(self), OAuthParameter::Nonce, value@),
    {
        let _ = self.insert(OAuthParameter::Nonce, value);
    }

    /// Sets the prompt.
    pub fn prompt(&mut self, value: &str)
        requires
            old(self).wf(),
        ensures
            final(self).wf(),
            updated(*old(self), *final(self), OAuthParameter::Prompt, value@),
    {
        let _ = self.insert(OAuthParameter::Prompt, value);
    }

    /// Sets the prompt from a list, joined by spaces.
    pub fn prompts(&mut self, value: &Vec<crate::identity::Prompt>)
        requires
            old(self).wf(),
        ensures
            final(self).wf(),
            updated(
                *old(self),
                *final(self),
                OAuthParameter::Prompt,
                crate::identity::prompts_query(value@),
            ),
    {
        let joined = crate::identity::join_prompts(value);
        let _ = self.insert(OAuthParameter::Prompt, joined.as_str());
    }

    /// Sets the session state.
    pub fn session_state(&mut self, value: &str)
        requires
            old(self).wf(),
        ensures
            final(self).wf(),
            updated(*old(self), *final(self), OAuthParameter::SessionState, value@),
    {
        let _ = self.insert(OAuthParameter::SessionState, value);
    }

    /// Sets the grant type.
    pub fn grant_type(&mut self, value: &str)
        requires
            old(self).wf(),
        ensures
            final(self).wf(),
            updated(*old(self), *final(self), OAuthParameter::GrantType, value@),
    {
        let _ = self.insert(OAuthParameter::GrantType, value);
    }

    /// Sets the resource.
    pub fn resource(&mut self, value: &str)
        requires
            old(self).wf(),
        ensures
            final(self).wf(),
            updated(*old(self), *final(self), OAuthParameter::Resource, value@),
    {
        let _ = self.insert(OAuthParameter::Resource, value);
    }

    /// Sets the PKCE code verifier.
    pub fn code_verifier(&mut self, value: &str)
        requires
            old(self).wf(),
        ensures
            final(self).wf(),
            updated(*old(self), *final(self), OAuthParameter::CodeVerifier, value@),
    {
        let _ = self.insert(OAuthParameter::CodeVerifier, value);
    }

    /// Sets the domain hint.
    pub fn domain_hint(&mut self, value: &str)
        requires
            old(self).wf(),
        ensures
            final(self).wf(),
            updated(*old(self), *final(self), OAuthParameter::DomainHint, value@),
    {
        let _ = self.insert(OAuthParameter::DomainHint, value);
    }

    /// Sets the PKCE code challenge.
    pub fn code_challenge(&mut self, value: &str)
        requires
            old(self).wf(),
        ensures
            final(self).wf(),
            updated(*old(self), *final(self), OAuthParameter::CodeChallenge, value@),
    {
        let _ = self.insert(OAuthParameter::CodeChallenge, value);
    }

    /// Sets the PKCE code challenge method.
    pub fn code_challenge_method(&mut self, value: &str)
        requires
            old(self).wf(),
        ensures
            final(self).wf(),
            updated(*old(self), *final(self), OAuthParameter::CodeChallengeMethod, value@),
    {
        let _ = self.insert(OAuthParameter::CodeChallengeMethod, value);
    }

    /// Sets the login hint.
    pub fn login_hint(&mut self, value: &str)
        requires
            old(self).wf(),
        ensures
            final(self).wf(),
            updated(*old(self), *final(self), OAuthParameter::LoginHint, value@),
    {
        let _ = self.insert(OAuthParameter::LoginHint, value);
    }

    /// Sets the client assertion.
    pub fn client_assertion(&mut self, value: &str)
        requires
            old(self).wf(),
        ensures
            final(self).wf(),
            updated(*old(self), *final(self), OAuthParameter::ClientAssertion, value@),
    {
        let _ = self.insert(OAuthParameter::ClientAssertion, value);
    }

    /// Sets the client assertion type.
    pub fn client_assertion_type(&mut self, value: &str)
        requires
            old(self).wf(),
        ensures
            final(self).wf(),
            updated(*old(self), *final(self), OAuthParameter::ClientAssertionType, value@),
    {
        let _ = self.insert(OAuthParameter::ClientAssertionType, value);
    }

    /// Sets the logout URL; the value must parse as an absolute URL.
    pub fn logout_url(&mut self, value: &str) -> (r: Result<(), AuthError>)
        requires
            old(self).wf(),
        ensures
            final(self).wf(),
            r is Ok <==> parses_as_url(value@),
            r is Ok ==> updated(*old(self), *final(self), OAuthParameter::LogoutURL, value@),
            r matches Err(e) ==> *final(self) == *old(self) && (e matches AuthError::InvalidUrl {
                alias,
            } && alias@ == "logout_url"@),
    {
        let r = self.insert(OAuthParameter::LogoutURL, value);
        proof {
            reveal_strlit("logout_url");
        }
        r
    }

    /// Sets the post-logout redirect URI; the value must parse as an
    /// absolute URL.
    pub fn post_logout_redirect_uri(&mut self, value: &str) -> (r: Result<(), AuthError>)
        requires
            old(self).wf(),
        ensures
            final(self).wf(),
            r is Ok <==> parses_as_url(value@),
            r is Ok ==> updated(
                *old(self),
                *final(self),
                OAuthParameter::PostLogoutRedirectURI,
                value@,
            ),
            r matches Err(e) ==> *final(self) == *old(self) && (e matches AuthError::InvalidUrl {
                alias,
            } && alias@ == "post_logout_redirect_uri"@),
    {
        let r = self.insert(OAuthParameter::PostLogoutRedirectURI, value);
        proof {
            reveal_strlit("post_logout_redirect_uri");
        }
        r
    }

    /// Sets the username.
    pub fn username(&mut self, value: &str)
        requires
            old(self).wf(),
        ensures
            final(self).wf(),
            updated(*old(self), *final(self), OAuthParameter::Username, value@),
    {
        let _ = self.insert(OAuthParameter::Username, value);
    }

    /// Sets the password.
    pub fn password(&mut self, value: &str)
        requires
            old(self).wf(),
        ensures
            final(self).wf(),
            updated(*old(self), *final(self), OAuthParameter::Password, value@),
    {
        let _ = self.insert(OAuthParameter::Password, value);
    }

    /// Sets the refresh token.
    pub fn refresh_token(&mut self, value: &str)
        requires
            old(self).wf(),
        ensures
            final(self).wf(),
            updated(*old(self), *final(self), OAuthParameter::RefreshToken, value@),
    {
        let _ = self.insert(OAuthParameter::RefreshToken, value);
    }

    /// Sets the device code.
    pub fn device_code(&mut self, value: &str)
        requires
            old(self).wf(),
        ensures
            final(self).wf(),
            updated(*old(self), *final(self), OAuthParameter::DeviceCode, value@),
    {
        let _ = self.insert(OAuthParameter::DeviceCode, value);
    }
}

/// Scopes from `add` folded into `cur` in order, skipping duplicates.
pub open spec fn add_scopes_spec(cur: Seq<Seq<char>>, add: Seq<Seq<char>>) -> Seq<Seq<char>>
    decreases add.len(),
{
    if add.len() == 0 {
        cur
    } else if cur.contains(add[0]) {
        add_scopes_spec(cur, add.skip(1))
    } else {
        add_scopes_spec(cur.push(add[0]), add.skip(1))
    }
}

impl OAuthSerializer {
    /// Whether the scope set holds a scope.
    pub fn contains_scope(&self, scope: &str) -> (r: bool)
        requires
            self.wf(),
        ensures
            r == self.scope_list().contains(scope@),
    {
        let needle = scope.to_owned();
        let mut i: usize = 0;
        while i < self.scopes.len()
            invariant
                i <= self.scopes@.len(),
                needle@ == scope@,
                forall|j: int| 0 <= j < i ==> self.scopes@[j]@ != scope@,
            decreases self.scopes@.len() - i,
        {
            if self.scopes[i] == needle {
                proof {
                    assert(self.scope_list()[i as int] == scope@);
                }
                return true;
            }
            i = i + 1;
        }
        proof {
            assert forall|j: int| 0 <= j < self.scope_list().len() implies self.scope_list()[j]
                != scope@ by {
                assert(self.scope_list()[j] == self.scopes@[j]@);
            }
        }
        false
    }

    /// Adds a scope; a scope already in the set is not added twice.
    pub fn add_scope(&mut self, scope: &str)
        requires
            old(self).wf(),
        ensures
            final(self).wf(),
            old(self).scope_list().contains(scope@) ==> *final(self) == *old(self),
            !old(self).scope_list().contains(scope@) ==> scopes_updated(
                *old(self),
                *final(self),
                old(self).scope_list().push(scope@),
            ),
    {
        if self.contains_scope(scope) {
            return ;
        }
        self.scopes.push(scope.to_owned());
        proof {
            lemma_same_creds(*old(self), *self);
            assert(self.scope_list() =~= old(self).scope_list().push(scope@)) by {
                assert forall|j: int| 0 <= j < self.scopes@.len() implies self.scope_list()[j]
                    == old(self).scope_list().push(scope@)[j] by {
                    assert(self.scope_list()[j] == self.scopes@[j]@);
                    if j < old(self).scopes@.len() {
                        assert(self.scopes@[j] == old(self).scopes@[j]);
                        assert(old(self).scope_list()[j] == old(self).scopes@[j]@);
                    }
                }
            };
            assert forall|i: int, j: int|
                0 <= i < j < self.scopes@.len() implies self.scopes@[i]@ != self.scopes@[j]@ by {
                if j == self.scopes@.len() - 1 {
                    assert(old(self).scope_list()[i] == old(self).scopes@[i]@);
                    assert(!old(self).scope_list().contains(scope@));
                } else {
                    assert(self.scopes@[i] == old(self).scopes@[i]);
                    assert(self.scopes@[j] == old(self).scopes@[j]);
                    assert(old(self).scopes@[i]@ != old(self).scopes@[j]@);
                }
            }
            lemma_wf_creds_same(*old(self), *self);
        }
    }

    /// The scope set, in insertion order.
    pub fn get_scopes(&self) -> (r: &Vec<String>)
        ensures
            str_views(r@) == self.scope_list(),
    {
        &self.scopes
    }

    /// Joins the scope set with a separator.
    pub fn join_scopes(&self, sep: &str) -> (r: String)
        ensures
            r@ == crate::encode::join_with(self.scope_list(), sep@),
    {
        crate::encode::join_strings(&self.scopes, sep)
    }

    /// Adds every scope of a list, skipping those already in the set.
    pub fn extend_scopes(&mut self, scopes: &Vec<String>)
        requires
            old(self).wf(),
        ensures
            final(self).wf(),
            scopes_updated(
                *old(self),
                *final(self),
                add_scopes_spec(old(self).scope_list(), str_views(scopes@)),
            ),
    {
        let ghost all = str_views(scopes@);
        let mut i: usize = 0;
        proof {
            assert(all.skip(0) =~= all);
        }
        while i < scopes.len()
            invariant
                i <= scopes@.len(),
                all == str_views(scopes@),
                self.wf(),
                add_scopes_spec(old(self).scope_list(), all) == add_scopes_spec(
                    self.scope_list(),
                    all.skip(i as int),
                ),
                forall|q: OAuthParameter| #[trigger] self.cred(q) == old(self).cred(q),
                self.stored_token() == old(self).stored_token(),
            decreases scopes@.len() - i,
        {
            let ghost pre = self.scope_list();
            proof {
                assert(all.skip(i as int)[0] == all[i as int]);
                assert(all[i as int] == scopes@[i as int]@);
                assert(all.skip(i as int).skip(1) =~= all.skip(i + 1));
            }
            self.add_scope(scopes[i].as_str());
            i = i + 1;
        }
        proof {
            assert(all.skip(all.len() as int) =~= Seq::<Seq<char>>::empty());
        }
    }

    /// Removes a scope from the set, if it is there.
    pub fn remove_scope(&mut self, scope: &str)
        requires
            old(self).wf(),
        ensures
            final(self).wf(),
            !old(self).scope_list().contains(scope@) ==> *final(self) == *old(self),
            old(self).scope_list().contains(scope@) ==> exists|i: int|
                0 <= i < old(self).scope_list().len() && old(self).scope_list()[i] == scope@
                    && #[trigger] final(self).scope_list() == old(self).scope_list().remove(i),
            forall|q: OAuthParameter| #[trigger] final(self).cred(q) == old(self).cred(q),
            final(self).stored_token() == old(self).stored_token(),
    {
        let needle = scope.to_owned();
        let mut i: usize = 0;
        while i < self.scopes.len()
            invariant
                i <= self.scopes@.len(),
                needle@ == scope@,
                old(self).wf(),
                *self == *old(self),
                forall|j: int| 0 <= j < i ==> self.scopes@[j]@ != scope@,
            decreases self.scopes@.len() - i,
        {
            if self.scopes[i] == needle {
                let _ = self.scopes.remove(i);
                proof {
                    lemma_same_creds(*old(self), *self);
                    assert(old(self).scope_list()[i as int] == scope@);
                    assert(self.scope_list() =~= old(self).scope_list().remove(i as int)) by {
                        assert(self.scopes@ == old(self).scopes@.remove(i as int));
                        assert forall|j: int|
                            0 <= j < self.scopes@.len() implies self.scope_list()[j] == old(
                            self,
                        ).scope_list().remove(i as int)[j] by {
                            if j < i {
                                assert(self.scopes@[j] == old(self).scopes@[j]);
                            } else {
                                assert(self.scopes@[j] == old(self).scopes@[j + 1]);
                            }
                        }
                    };
                    assert forall|a: int, b: int|
                        0 <= a < b < self.scopes@.len() implies self.scopes@[a]@
                        != self.scopes@[b]@ by {
                        let oa: int = if a < i { a } else { a + 1 };
                        let ob: int = if b < i { b } else { b + 1 };
                        assert(self.scopes@[a] == old(self).scopes@[oa]);
                        assert(self.scopes@[b] == old(self).scopes@[ob]);
                        assert(old(self).scopes@[oa]@ != old(self).scopes@[ob]@);
                    }
                    lemma_wf_creds_same(*old(self), *self);
                }
                return ;
            }
            i = i + 1;
        }
        proof {
            assert forall|j: int| 0 <= j < old(self).scope_list().len() implies old(
                self,
            ).scope_list()[j] != scope@ by {
                assert(old(self).scope_list()[j] == old(self).scopes@[j]@);
            }
        }
    }

    /// Empties the scope set.
    pub fn clear_scopes(&mut self)
        requires
            old(self).wf(),
        ensures
            final(self).wf(),
            scopes_updated(*old(self), *final(self), Seq::empty()),
    {
        self.scopes = Vec::new();
        proof {
            lemma_same_creds(*old(self), *self);
            lemma_wf_creds_same(*old(self), *self);
            assert(self.scope_list() =~= Seq::<Seq<char>>::empty());
        }
    }

    /// Stores a token response; its refresh token, if any, also becomes the
    /// stored `refresh_token` parameter.
    pub fn access_token(&mut self, ac: MsalToken)
        requires
            old(self).wf(),
        ensures
            final(self).wf(),
            final(self).stored_token() == Some(ac),
            final(self).scope_list() == old(self).scope_list(),
            ac.refresh_token matches Some(rt) ==> final(self).cred(OAuthParameter::RefreshToken)
                == Some(rt@) && (forall|q: OAuthParameter|
                q != OAuthParameter::RefreshToken ==> #[trigger] final(self).cred(q) == old(
                    self,
                ).cred(q)),
            ac.refresh_token is None ==> forall|q: OAuthParameter| #[trigger]
                final(self).cred(q) == old(self).cred(q),
    {
        match crate::text::clone_opt_string(&ac.refresh_token) {
            Some(rt) => {
                let _ = self.insert(OAuthParameter::RefreshToken, rt.as_str());
            },
            None => {},
        }
        let ghost mid = *self;
        self.access_token = Some(ac);
        proof {
            lemma_same_creds(mid, *self);
            lemma_wf_creds_same(mid, *self);
        }
    }

    /// The stored token response, if any.
    pub fn get_access_token(&self) -> (r: Option<MsalToken>)
        ensures
            r is Some <==> self.has_stored_token(),
            r matches Some(t) ==> token_view_eq(t, self.stored_token().unwrap()),
    {
        match &self.access_token {
            Some(t) => Some(t.clone()),
            None => None,
        }
    }

    /// The refresh token currently available: the stored `refresh_token`
    /// parameter, or the stored token response's refresh token. No request
    /// is made.
    pub fn get_refresh_token(&self) -> (r: Result<String, AuthError>)
        requires
            self.wf(),
        ensures
            r is Ok <==> self.refresh_fallback() is Some,
            r matches Ok(v) ==> Some(v@) == self.refresh_fallback(),
            r matches Err(e) ==> (e matches AuthError::RequiredParameterMissing { alias, .. }
                && alias@ == "refresh_token"@),
    {
        match self.get(OAuthParameter::RefreshToken) {
            Some(v) => Ok(v),
            None => match &self.access_token {
                Some(t) => match &t.refresh_token {
                    Some(rt) => Ok(rt.clone()),
                    None => Err(AuthError::required("refresh_token")),
                },
                None => Err(AuthError::required("refresh_token")),
            },
        }
    }

    /// The stored value of a parameter, demanded: absence is a
    /// missing-parameter error carrying the alias.
    pub fn get_or_else(&self, c: OAuthParameter) -> (r: Result<String, AuthError>)
        requires
            self.wf(),
        ensures
            r is Ok <==> self.cred(c) is Some,
            r matches Ok(v) ==> Some(v@) == self.cred(c),
            r matches Err(e) ==> (e matches AuthError::RequiredParameterMissing { alias, .. }
                && alias@ == c.alias_spec()),
    {
        match self.get(c) {
            Some(v) => Ok(v),
            None => Err(AuthError::required(c.alias())),
        }
    }

    /// The stored value of a parameter, demanded, like [`Self::get_or_else`].
    pub fn ok_or(&self, oac: &OAuthParameter) -> (r: Result<String, AuthError>)
        requires
            self.wf(),
        ensures
            r is Ok <==> self.cred(*oac) is Some,
            r matches Ok(v) ==> Some(v@) == self.cred(*oac),
            r matches Err(e) ==> (e matches AuthError::RequiredParameterMissing { alias, .. }
                && alias@ == oac.alias_spec()),
    {
        self.get_or_else(*oac)
    }

    /// The `alias=value` pair a required parameter contributes: the scope
    /// set must be non-empty for the scope parameter, any other parameter
    /// must be stored; otherwise the missing-parameter error.
    pub fn try_as_tuple(&self, oac: &OAuthParameter) -> (r: Result<(String, String), AuthError>)
        requires
            self.wf(),
        ensures
            r is Ok <==> self.present(*oac),
            r matches Ok(kv) ==> kv.0@ == oac.alias_spec() && kv.1@ == self.value_of(*oac),
            r matches Err(e) ==> (e matches AuthError::RequiredParameterMissing { alias, .. }
                && alias@ == oac.alias_spec()),
    {
        if matches!(oac, OAuthParameter::Scope) {
            proof {
                assert(self.scope_list().len() == self.scopes@.len());
            }
            if self.scopes.len() == 0 {
                return Err(AuthError::required(oac.alias()));
            }
            Ok((oac.alias().to_owned(), self.join_scopes(" ")))
        } else {
            match self.get(*oac) {
                Some(v) => Ok((oac.alias().to_owned(), v)),
                None => Err(AuthError::required(oac.alias())),
            }
        }
    }
}

/// Whether `b` carries the same data as `a`: the same parameter values,
/// the same scopes, and a stored token with the same data if one is stored.
pub open spec fn store_view_eq(a: OAuthSerializer, b: OAuthSerializer) -> bool {
    &&& forall|p: OAuthParameter| #[trigger] b.cred(p) == a.cred(p)
    &&& b.scope_list() == a.scope_list()
    &&& b.has_stored_token() == a.has_stored_token()
    &&& b.stored_refresh() == a.stored_refresh()
    &&& (a.has_stored_token() ==> token_view_eq(b.stored_token().unwrap(), a.stored_token().unwrap()))
}

impl Clone for OAuthSerializer {
    /// A copy with the same parameters, scopes and stored token data.
    fn clone(&self) -> (res: Self)
        ensures
            store_view_eq(*self, res),
            self.wf() ==> res.wf(),
    {
        let access_token = match &self.access_token {
            Some(t) => Some(t.clone()),
            None => None,
        };
        let res = OAuthSerializer {
            access_token,
            scopes: clone_string_vec(&self.scopes),
            credentials: clone_opt_string_vec(&self.credentials),
        };
        proof {
            assert forall|p: OAuthParameter| #[trigger] res.cred(p) == self.cred(p) by {
                assert(res.credentials@ == self.credentials@);
            }
        }
        res
    }
}

impl Default for OAuthSerializer {
    /// An empty store, as [`OAuthSerializer::new`] builds it.
    fn default() -> (r: Self)
        ensures
            r.wf(),
            forall|p: OAuthParameter| #[trigger] r.cred(p) is None,
            r.scope_list() == Seq::<Seq<char>>::empty(),
            !r.has_stored_token(),
    {
        OAuthSerializer::new()
    }
}

/// Stores with the same credential slots hold the same parameter values.
proof fn lemma_same_creds(a: OAuthSerializer, b: OAuthSerializer)
    requires
        b.credentials == a.credentials,
    ensures
        forall|p: OAuthParameter| #[trigger] b.cred(p) == a.cred(p),
{
}

/// A store stays well-formed when the credential slots are unchanged and
/// the new scope set is still duplicate-free.
proof fn lemma_wf_creds_same(a: OAuthSerializer, b: OAuthSerializer)
    requires
        a.wf(),
        b.credentials == a.credentials,
        forall|i: int, j: int|
            0 <= i < j < b.scopes@.len() ==> b.scopes@[i]@ != b.scopes@[j]@,
    ensures
        b.wf(),
{
    assert forall|p: OAuthParameter|
        p.is_url_kind_spec() && #[trigger] b.cred(p) is Some implies parses_as_url(
        b.cred(p).unwrap(),
    ) by {
        assert(b.cred(p) == a.cred(p));
        assert(a.cred(p) is Some);
    }
}

/// The `alias=value` pairs the fields contribute, in declared order; a
/// field that is not present is silently omitted.
pub open spec fn pairs_present(s: OAuthSerializer, fields: Seq<OAuthParameter>) -> Seq<
    (Seq<char>, Seq<char>),
>
    decreases fields.len(),
{
    if fields.len() == 0 {
        Seq::empty()
    } else {
        let rest = pairs_present(s, fields.skip(1));
        if s.present(fields[0]) {
            seq![(fields[0].alias_spec(), s.value_of(fields[0]))] + rest
        } else {
            rest
        }
    }
}

/// The first field of the list that is not present, if any.
pub open spec fn first_missing(s: OAuthSerializer, fields: Seq<OAuthParameter>) -> Option<
    OAuthParameter,
>
    decreases fields.len(),
{
    if fields.len() == 0 {
        None
    } else if !s.present(fields[0]) {
        Some(fields[0])
    } else {
        first_missing(s, fields.skip(1))
    }
}

/// When every field is present, none is missing.
proof fn lemma_first_missing_none(s: OAuthSerializer, fields: Seq<OAuthParameter>)
    requires
        forall|j: int| 0 <= j < fields.len() ==> s.present(#[trigger] fields[j]),
    ensures
        first_missing(s, fields) is None,
    decreases fields.len(),
{
    if fields.len() > 0 {
        assert(fields.skip(1).len() == fields.len() - 1);
        assert forall|j: int| 0 <= j < fields.skip(1).len() implies s.present(
            #[trigger] fields.skip(1)[j],
        ) by {
            assert(fields.skip(1)[j] == fields[j + 1]);
        }
        lemma_first_missing_none(s, fields.skip(1));
    }
}

/// When the fields before `i` are present and field `i` is not, field `i`
/// is the first missing one.
proof fn lemma_first_missing_at(s: OAuthSerializer, fields: Seq<OAuthParameter>, i: int)
    requires
        0 <= i < fields.len(),
        forall|j: int| 0 <= j < i ==> s.present(#[trigger] fields[j]),
        !s.present(fields[i]),
    ensures
        first_missing(s, fields) == Some(fields[i]),
    decreases i,
{
    if i > 0 {
        assert(fields.skip(1)[i - 1] == fields[i]);
        assert forall|j: int| 0 <= j < i - 1 implies s.present(#[trigger] fields.skip(1)[j]) by {
            assert(fields.skip(1)[j] == fields[j + 1]);
        }
        lemma_first_missing_at(s, fields.skip(1), i - 1);
    }
}

impl OAuthSerializer {
    /// The `alias=value` pairs of the present fields, in declared order.
    /// Absent fields are omitted without error; the scope parameter
    /// contributes the space-joined scope set when it is non-empty.
    pub fn form_encode_credentials(&self, fields: &Vec<OAuthParameter>) -> (r: Vec<
        (String, String),
    >)
        requires
            self.wf(),
        ensures
            crate::encode::pair_views(r@) == pairs_present(*self, fields@),
    {
        let ghost fview = fields@;
        let mut out: Vec<(String, String)> = Vec::new();
        let mut i: usize = 0;
        proof {
            assert(fview.skip(0) =~= fview);
            assert(crate::encode::pair_views(out@) =~= Seq::<(Seq<char>, Seq<char>)>::empty());
        }
        while i < fields.len()
            invariant
                i <= fields@.len(),
                fview == fields@,
                self.wf(),
                pairs_present(*self, fview) =~= crate::encode::pair_views(out@) + pairs_present(
                    *self,
                    fview.skip(i as int),
                ),
            decreases fields@.len() - i,
        {
            let ghost pre = crate::encode::pair_views(out@);
            let f = fields[i];
            proof {
                assert(fview.skip(i as int)[0] == fview[i as int]);
                assert(fview.skip(i as int).skip(1) =~= fview.skip(i + 1));
            }
            if self.contains(f) {
                let value: String = if matches!(f, OAuthParameter::Scope) {
                    self.join_scopes(" ")
                } else {
                    match self.get(f) {
                        Some(v) => v,
                        None => String::new(),
                    }
                };
                proof {
                    assert(value@ == self.value_of(f));
                }
                out.push((f.alias().to_owned(), value));
                proof {
                    assert(crate::encode::pair_views(out@) =~= pre.push(
                        (f.alias_spec(), self.value_of(f)),
                    ));
                    assert(pre.push((f.alias_spec(), self.value_of(f))) =~= pre + seq![
                        (f.alias_spec(), self.value_of(f)),
                    ]);
                    assert(pairs_present(*self, fview) =~= crate::encode::pair_views(out@)
                        + pairs_present(*self, fview.skip(i + 1)));
                }
            }
            i = i + 1;
        }
        proof {
            assert(fview.skip(fview.len() as int) =~= Seq::<OAuthParameter>::empty());
        }
        out
    }

    /// Builds a query string: the required fields, validated and written in
    /// declared order, then the optional fields that are present. The first
    /// absent required field is the error; an absent optional field is
    /// silently omitted.
    pub fn encode_query(
        &self,
        optional_fields: &Vec<OAuthParameter>,
        required_fields: &Vec<OAuthParameter>,
    ) -> (r: Result<String, AuthError>)
        requires
            self.wf(),
        ensures
            r is Ok <==> first_missing(*self, required_fields@) is None,
            r matches Err(e) ==> (first_missing(*self, required_fields@) matches Some(p) && (
            e matches AuthError::RequiredParameterMissing { alias, .. } && alias@
                == p.alias_spec())),
            r matches Ok(q) ==> q@ == crate::encode::chars_of(
                crate::encode::render_query(
                    pairs_present(*self, required_fields@) + pairs_present(
                        *self,
                        optional_fields@,
                    ),
                ),
            ),
    {
        let mut i: usize = 0;
        while i < required_fields.len()
            invariant
                i <= required_fields@.len(),
                self.wf(),
                forall|j: int| 0 <= j < i ==> self.present(#[trigger] required_fields@[j]),
            decreases required_fields@.len() - i,
        {
            let f = required_fields[i];
            if !self.contains(f) {
                proof {
                    lemma_first_missing_at(*self, required_fields@, i as int);
                }
                return Err(AuthError::required(f.alias()));
            }
            i = i + 1;
        }
        proof {
            lemma_first_missing_none(*self, required_fields@);
        }
        let mut pairs = self.form_encode_credentials(required_fields);
        let ghost req_pairs = crate::encode::pair_views(pairs@);
        let mut opt = self.form_encode_credentials(optional_fields);
        let ghost opt_pairs = crate::encode::pair_views(opt@);
        proof {
            crate::encode::lemma_pair_views_concat(pairs@, opt@);
        }
        pairs.append(&mut opt);
        let bytes = crate::encode::encode_pairs(&pairs);
        proof {
            crate::encode::lemma_encode_pairs_ascii(crate::encode::pair_views(pairs@));
        }
        let q = crate::capability::ascii_to_string(bytes);
        Ok(q)
    }
}

/// The `alias=value` pair one field contributes to a form body: the
/// refresh-token field may fall back to the stored token response, the
/// scope field contributes the joined scope set when non-empty, any other
/// field its stored value.
pub open spec fn param_pair_of(s: OAuthSerializer, f: OAuthParameter) -> Option<
    (Seq<char>, Seq<char>),
> {
    if f == OAuthParameter::RefreshToken {
        match s.refresh_fallback() {
            Some(v) => Some((f.alias_spec(), v)),
            None => None,
        }
    } else {
        if s.present(f) {
            Some((f.alias_spec(), s.value_of(f)))
        } else {
            None
        }
    }
}

/// The form-body pairs of a field list, in declared order.
pub open spec fn params_pairs(s: OAuthSerializer, fields: Seq<OAuthParameter>) -> Seq<
    (Seq<char>, Seq<char>),
>
    decreases fields.len(),
{
    if fields.len() == 0 {
        Seq::empty()
    } else {
        let rest = params_pairs(s, fields.skip(1));
        match param_pair_of(s, fields[0]) {
            Some(kv) => seq![kv] + rest,
            None => rest,
        }
    }
}

/// Whether a form body can be built: a listed refresh-token field demands
/// that a refresh token is available somewhere.
pub open spec fn params_ok(s: OAuthSerializer, fields: Seq<OAuthParameter>) -> bool {
    fields.contains(OAuthParameter::RefreshToken) ==> s.refresh_fallback() is Some
}

impl OAuthSerializer {
    /// The form-body pairs of the listed fields: present fields in declared
    /// order, with the refresh-token fallback. The only error is a listed
    /// refresh-token field with no refresh token available anywhere.
    pub fn params(&self, fields: &Vec<OAuthParameter>) -> (r: Result<
        Vec<(String, String)>,
        AuthError,
    >)
        requires
            self.wf(),
        ensures
            r is Ok <==> params_ok(*self, fields@),
            r matches Ok(v) ==> crate::encode::pair_views(v@) == params_pairs(*self, fields@),
            r matches Err(e) ==> (e matches AuthError::RequiredParameterMissing { alias, .. }
                && alias@ == "refresh_token"@),
    {
        let ghost fview = fields@;
        let mut out: Vec<(String, String)> = Vec::new();
        let mut i: usize = 0;
        proof {
            assert(fview.skip(0) =~= fview);
            assert(crate::encode::pair_views(out@) =~= Seq::<(Seq<char>, Seq<char>)>::empty());
        }
        while i < fields.len()
            invariant
                i <= fields@.len(),
                fview == fields@,
                self.wf(),
                params_pairs(*self, fview) =~= crate::encode::pair_views(out@) + params_pairs(
                    *self,
                    fview.skip(i as int),
                ),
                forall|j: int|
                    0 <= j < i && #[trigger] fview[j] == OAuthParameter::RefreshToken
                        ==> self.refresh_fallback() is Some,
            decreases fields@.len() - i,
        {
            let ghost pre = crate::encode::pair_views(out@);
            let f = fields[i];
            proof {
                assert(fview.skip(i as int)[0] == fview[i as int]);
                assert(fview.skip(i as int).skip(1) =~= fview.skip(i + 1));
            }
            if matches!(f, OAuthParameter::RefreshToken) {
                let rt = match self.get_refresh_token() {
                    Ok(v) => v,
                    Err(e) => {
                        return Err(e);
                    },
                };
                out.push((f.alias().to_owned(), rt));
            } else if self.contains(f) {
                let value: String = if matches!(f, OAuthParameter::Scope) {
                    self.join_scopes(" ")
                } else {
                    match self.get(f) {
                        Some(v) => v,
                        None => String::new(),
                    }
                };
                out.push((f.alias().to_owned(), value));
            }
            proof {
                match param_pair_of(*self, fview[i as int]) {
                    Some(kv) => {
                        assert(crate::encode::pair_views(out@) =~= pre.push(kv));
                        assert(pre.push(kv) =~= pre + seq![kv]);
                    },
                    None => {},
                }
                assert(params_pairs(*self, fview) =~= crate::encode::pair_views(out@)
                    + params_pairs(*self, fview.skip(i + 1)));
            }
            i = i + 1;
        }
        proof {
            assert(fview.skip(fview.len() as int) =~= Seq::<OAuthParameter>::empty());
            if fview.contains(OAuthParameter::RefreshToken) {
                let j = choose|j: int|
                    0 <= j < fview.len() && fview[j] == OAuthParameter::RefreshToken;
                assert(self.refresh_fallback() is Some);
            }
        }
        Ok(out)
    }

    /// The credential map of a request: every required field validated (the
    /// first absent one is the error), then the optional fields that are
    /// present, as `alias=value` pairs in declared order.
    pub fn as_credential_map(
        &self,
        optional_fields: &Vec<OAuthParameter>,
        required_fields: &Vec<OAuthParameter>,
    ) -> (r: Result<Vec<(String, String)>, AuthError>)
        requires
            self.wf(),
        ensures
            r is Ok <==> first_missing(*self, required_fields@) is None,
            r matches Err(e) ==> (first_missing(*self, required_fields@) matches Some(p) && (
            e matches AuthError::RequiredParameterMissing { alias, .. } && alias@
                == p.alias_spec())),
            r matches Ok(v) ==> crate::encode::pair_views(v@) == pairs_present(
                *self,
                required_fields@,
            ) + pairs_present(*self, optional_fields@),
    {
        let mut i: usize = 0;
        while i < required_fields.len()
            invariant
                i <= required_fields@.len(),
                self.wf(),
                forall|j: int| 0 <= j < i ==> self.present(#[trigger] required_fields@[j]),
            decreases required_fields@.len() - i,
        {
            let f = required_fields[i];
            if !self.contains(f) {
                proof {
                    lemma_first_missing_at(*self, required_fields@, i as int);
                }
                return Err(AuthError::required(f.alias()));
            }
            i = i + 1;
        }
        proof {
            lemma_first_missing_none(*self, required_fields@);
        }
        let mut pairs = self.form_encode_credentials(required_fields);
        let mut opt = self.form_encode_credentials(optional_fields);
        proof {
            crate::encode::lemma_pair_views_concat(pairs@, opt@);
        }
        pairs.append(&mut opt);
        Ok(pairs)
    }
}

/// Whether `b` is `a` after pre-request normalization for a grant and
/// phase: every parameter the pair injects holds its fixed value unless the
/// caller had set it, everything else is unchanged.
pub open spec fn injected(
    a: OAuthSerializer,
    b: OAuthSerializer,
    g: crate::grants::GrantType,
    request: crate::grants::GrantRequest,
) -> bool {
    &&& forall|q: OAuthParameter| #[trigger]
        b.cred(q) == (match g.injected_value(request, a.scope_list().len() > 0, q) {
            Some(v) => if a.cred(q) is Some {
                a.cred(q)
            } else {
                Some(v)
            },
            None => a.cred(q),
        })
    &&& b.scope_list() == a.scope_list()
    &&& b.stored_token() == a.stored_token()
}

/// The base URL with a query string behind it: a `?` is appended unless the
/// base already ends with one.
pub open spec fn with_query(base: Seq<char>, query: Seq<char>) -> Seq<char> {
    if base.len() > 0 && base.last() == '?' {
        base + query
    } else {
        base + seq!['?'] + query
    }
}

impl OAuthSerializer {
    /// Injects the fixed values the given grant type and phase demand
    /// (grant type, response type, response mode), never overwriting a
    /// value the caller set.
    pub fn pre_request_check(
        &mut self,
        grant: crate::grants::GrantType,
        request_type: crate::grants::GrantRequest,
    )
        requires
            old(self).wf(),
        ensures
            final(self).wf(),
            injected(*old(self), *final(self), grant, request_type),
    {
        let ghost hs = old(self).scope_list().len() > 0;
        match grant {
            crate::grants::GrantType::TokenFlow => {
                if matches!(request_type, crate::grants::GrantRequest::Authorization) {
                    let _ = self.entry_with(OAuthParameter::ResponseType, "token");
                }
            },
            crate::grants::GrantType::CodeFlow => match request_type {
                crate::grants::GrantRequest::Authorization => {
                    let _ = self.entry_with(OAuthParameter::ResponseType, "code");
                    let _ = self.entry_with(OAuthParameter::ResponseMode, "query");
                },
                crate::grants::GrantRequest::AccessToken => {
                    let _ = self.entry_with(OAuthParameter::ResponseType, "token");
                    let _ = self.entry_with(OAuthParameter::GrantType, "authorization_code");
                },
                crate::grants::GrantRequest::RefreshToken => {
                    let _ = self.entry_with(OAuthParameter::GrantType, "refresh_token");
                },
            },
            crate::grants::GrantType::AuthorizationCode => match request_type {
                crate::grants::GrantRequest::Authorization => {
                    let _ = self.entry_with(OAuthParameter::ResponseType, "code");
                    let _ = self.entry_with(OAuthParameter::ResponseMode, "query");
                },
                crate::grants::GrantRequest::AccessToken => {
                    let _ = self.entry_with(OAuthParameter::GrantType, "authorization_code");
                },
                crate::grants::GrantRequest::RefreshToken => {
                    let _ = self.entry_with(OAuthParameter::GrantType, "refresh_token");
                },
            },
            crate::grants::GrantType::Implicit => {
                let has = self.scopes.len() > 0;
                proof {
                    assert(self.scope_list().len() == self.scopes@.len());
                }
                if matches!(request_type, crate::grants::GrantRequest::Authorization) && has {
                    let _ = self.entry_with(OAuthParameter::ResponseType, "token");
                }
            },
            crate::grants::GrantType::DeviceCode => {
                if matches!(request_type, crate::grants::GrantRequest::AccessToken) {
                    let _ = self.entry_with(
                        OAuthParameter::GrantType,
                        "urn:ietf:params:oauth:grant-type:device_code",
                    );
                } else if matches!(request_type, crate::grants::GrantRequest::RefreshToken) {
                    let _ = self.entry_with(OAuthParameter::GrantType, "refresh_token");
                }
            },
            crate::grants::GrantType::OpenId => {
                if matches!(request_type, crate::grants::GrantRequest::AccessToken) {
                    let _ = self.entry_with(OAuthParameter::GrantType, "authorization_code");
                } else if matches!(request_type, crate::grants::GrantRequest::RefreshToken) {
                    let _ = self.entry_with(OAuthParameter::GrantType, "refresh_token");
                }
            },
            crate::grants::GrantType::ClientCredentials => {
                if matches!(request_type, crate::grants::GrantRequest::AccessToken) || matches!(
                    request_type,
                    crate::grants::GrantRequest::RefreshToken,
                ) {
                    let _ = self.entry_with(OAuthParameter::GrantType, "client_credentials");
                }
            },
            crate::grants::GrantType::ResourceOwnerPasswordCredentials => {
                if matches!(request_type, crate::grants::GrantRequest::RefreshToken) {
                    let _ = self.entry_with(OAuthParameter::GrantType, "refresh_token");
                } else {
                    let _ = self.entry_with(OAuthParameter::GrantType, "password");
                }
            },
        }
        proof {
            assert forall|q: OAuthParameter| #[trigger]
                self.cred(q) == (match grant.injected_value(request_type, hs, q) {
                    Some(v) => if old(self).cred(q) is Some {
                        old(self).cred(q)
                    } else {
                        Some(v)
                    },
                    None => old(self).cred(q),
                }) by {}
        }
    }

    /// Builds the encoded request for a grant type and phase: a full
    /// authorization URL for the authorization phase, a form body for the
    /// token and refresh phases. Fixed values are injected first; fields
    /// that are present are written in declared order, absent ones are
    /// omitted. The token flow and the implicit grant reject the token and
    /// refresh phases outright.
    pub fn encode_uri(
        &mut self,
        grant: crate::grants::GrantType,
        request_type: crate::grants::GrantRequest,
    ) -> (r: Result<String, AuthError>)
        requires
            old(self).wf(),
        ensures
            final(self).wf(),
            !grant.supports_spec(request_type) ==> *final(self) == *old(self) && (
            r matches Err(e) && e == (AuthError::GrantNotSupported {
                grant,
                request: request_type,
            })),
            grant.supports_spec(request_type) ==> injected(
                *old(self),
                *final(self),
                grant,
                request_type,
            ),
            grant.supports_spec(request_type) && request_type
                == crate::grants::GrantRequest::Authorization ==> {
                &&& r is Ok <==> old(self).cred(OAuthParameter::AuthorizationUrl) is Some
                &&& (r matches Ok(u) ==> u@ == with_query(
                    old(self).cred(OAuthParameter::AuthorizationUrl).unwrap(),
                    crate::encode::chars_of(
                        crate::encode::render_query(
                            pairs_present(
                                *final(self),
                                grant.available_spec(request_type),
                            ),
                        ),
                    ),
                ))
            },
            grant.supports_spec(request_type) && request_type
                != crate::grants::GrantRequest::Authorization ==> (r matches Ok(u) && u@
                == crate::encode::chars_of(
                crate::encode::render_query(
                    pairs_present(*final(self), grant.available_spec(request_type)),
                ),
            )),
    {
        if !grant.supports(request_type) {
            return Err(AuthError::GrantNotSupported { grant, request: request_type });
        }
        self.pre_request_check(grant, request_type);
        let fields = grant.available_credentials(request_type);
        let pairs = self.form_encode_credentials(&fields);
        let bytes = crate::encode::encode_pairs(&pairs);
        proof {
            crate::encode::lemma_encode_pairs_ascii(crate::encode::pair_views(pairs@));
        }
        let query = crate::capability::ascii_to_string(bytes);
        if matches!(request_type, crate::grants::GrantRequest::Authorization) {
            proof {
                assert(grant.injected_value(
                    request_type,
                    old(self).scope_list().len() > 0,
                    OAuthParameter::AuthorizationUrl,
                ) is None);
                assert(self.cred(OAuthParameter::AuthorizationUrl) == old(self).cred(
                    OAuthParameter::AuthorizationUrl,
                ));
            }
            let base = match self.get_or_else(OAuthParameter::AuthorizationUrl) {
                Ok(u) => u,
                Err(e) => {
                    return Err(e);
                },
            };
            let ghost base_view = base@;
            let mut url = base;
            let n = url.unicode_len();
            let needs_sep = if n == 0 {
                true
            } else {
                !(url.get_char(n - 1) == '?')
            };
            if needs_sep {
                url.append("?");
                proof {
                    reveal_strlit("?");
                }
            }
            url.append(query.as_str());
            proof {
                assert(url@ =~= with_query(base_view, query@));
            }
            Ok(url)
        } else {
            Ok(query)
        }
    }

    /// Whether a value is stored under the given alias string.
    pub fn contains_key(&self, key: &str) -> (r: bool)
        requires
            self.wf(),
        ensures
            r == exists|p: OAuthParameter| #[trigger] p.alias_spec() == key@ && self.cred(
                p,
            ) is Some,
    {
        match crate::params::param_of_alias(key) {
            Some(p) => {
                let idx = p.index();
                let found = self.credentials[idx].is_some();
                proof {
                    if found {
                        assert(p.alias_spec() == key@ && self.cred(p) is Some);
                    } else {
                        assert forall|q: OAuthParameter| !(#[trigger] q.alias_spec() == key@
                            && self.cred(q) is Some) by {
                            if q.alias_spec() == key@ {
                                crate::params::lemma_alias_injective(q, p);
                            }
                        }
                    }
                }
                found
            },
            None => false,
        }
    }

    /// Copies the fields of a redirect-response id token into the store:
    /// its code, session state and id-token string overwrite, its state is
    /// only a default (a caller-set state wins).
    pub fn id_token(&mut self, value: crate::id_token::IdToken)
        requires
            old(self).wf(),
        ensures
            final(self).wf(),
            final(self).cred(OAuthParameter::IdToken) == Some(value.model().id_token),
            value.model().code matches Some(c) ==> final(self).cred(
                OAuthParameter::AuthorizationCode,
            ) == Some(c),
            value.model().code is None ==> final(self).cred(OAuthParameter::AuthorizationCode)
                == old(self).cred(OAuthParameter::AuthorizationCode),
            value.model().state matches Some(st) ==> final(self).cred(OAuthParameter::State)
                == (match old(self).cred(OAuthParameter::State) {
                Some(x) => Some(x),
                None => Some(st),
            }),
            value.model().state is None ==> final(self).cred(OAuthParameter::State) == old(
                self,
            ).cred(OAuthParameter::State),
            value.model().session_state matches Some(ss) ==> final(self).cred(
                OAuthParameter::SessionState,
            ) == Some(ss),
            value.model().session_state is None ==> final(self).cred(OAuthParameter::SessionState)
                == old(self).cred(OAuthParameter::SessionState),
            forall|q: OAuthParameter|
                q != OAuthParameter::IdToken && q != OAuthParameter::AuthorizationCode && q
                    != OAuthParameter::State && q != OAuthParameter::SessionState
                    ==> #[trigger] final(self).cred(q) == old(self).cred(q),
            final(self).scope_list() == old(self).scope_list(),
            final(self).stored_token() == old(self).stored_token(),
    {
        match value.get_code() {
            Some(code) => {
                self.authorization_code(code.as_str());
            },
            None => {},
        }
        let ghost s1 = *self;
        match value.get_state() {
            Some(st) => {
                let _ = self.entry_with(OAuthParameter::State, st.as_str());
            },
            None => {},
        }
        let ghost s2 = *self;
        match value.get_session_state() {
            Some(ss) => {
                self.session_state(ss.as_str());
            },
            None => {},
        }
        let ghost s3 = *self;
        let idt = value.get_id_token();
        let _ = self.insert(OAuthParameter::IdToken, idt.as_str());
        proof {
            assert forall|q: OAuthParameter|
                q != OAuthParameter::IdToken && q != OAuthParameter::AuthorizationCode && q
                    != OAuthParameter::State && q != OAuthParameter::SessionState implies #[trigger]
                self.cred(q) == old(self).cred(q) by {
                assert(self.cred(q) == s3.cred(q));
                assert(s3.cred(q) == s2.cred(q));
                assert(s2.cred(q) == s1.cred(q));
                assert(s1.cred(q) == old(self).cred(q));
            }
        }
    }

    /// Generates and stores a PKCE verifier/challenge pair: the verifier is
    /// 32 secure-random bytes base64url-encoded without padding, the
    /// challenge its SHA-256 digest encoded the same way, and the method is
    /// fixed to `S256`. Fails only if the random source does.
    pub fn generate_sha256_challenge_and_verifier(&mut self) -> (r: Result<(), AuthError>)
        requires
            old(self).wf(),
        ensures
            final(self).wf(),
            r is Err ==> *final(self) == *old(self),
            r is Ok ==> exists|rnd: Seq<u8>|
                rnd.len() == 32 && #[trigger] pkce_stored(
                    *old(self),
                    *final(self),
                    crate::capability::b64url_of(rnd),
                ),
    {
        let rnd = match crate::capability::random_32_bytes() {
            Some(v) => v,
            None => {
                let mut reason = String::new();
                reason.append("the secure random source failed");
                return Err(AuthError::CollaboratorFailure { reason });
            },
        };
        let ghost g_rnd = rnd@;
        let verifier = crate::capability::b64url_encode(rnd.as_slice());
        let vbytes = verifier.as_str().as_bytes_vec();
        let digest = crate::capability::sha256_digest(vbytes.as_slice());
        let challenge = crate::capability::b64url_encode(digest.as_slice());
        self.code_verifier(verifier.as_str());
        let ghost s1 = *self;
        self.code_challenge(challenge.as_str());
        let ghost s2 = *self;
        self.code_challenge_method("S256");
        proof {
            assert forall|q: OAuthParameter|
                q != OAuthParameter::CodeVerifier && q != OAuthParameter::CodeChallenge && q
                    != OAuthParameter::CodeChallengeMethod implies #[trigger] self.cred(q) == old(
                self,
            ).cred(q) by {
                assert(self.cred(q) == s2.cred(q));
                assert(s2.cred(q) == s1.cred(q));
                assert(s1.cred(q) == old(self).cred(q));
            }
            assert(self.cred(OAuthParameter::CodeVerifier) == Some(
                crate::capability::b64url_of(g_rnd),
            )) by {
                assert(s1.cred(OAuthParameter::CodeVerifier) == Some(verifier@));
                assert(s2.cred(OAuthParameter::CodeVerifier) == s1.cred(
                    OAuthParameter::CodeVerifier,
                ));
            };
            assert(pkce_stored(*old(self), *self, crate::capability::b64url_of(g_rnd)));
        }
        Ok(())
    }
}

/// Whether a field can contribute to a form body: the refresh-token field
/// counts the fallback to the stored token response.
pub open spec fn form_present(s: OAuthSerializer, f: OAuthParameter) -> bool {
    param_pair_of(s, f) is Some
}

/// The first field of the list that cannot contribute to a form body.
pub open spec fn first_missing_form(s: OAuthSerializer, fields: Seq<OAuthParameter>) -> Option<
    OAuthParameter,
>
    decreases fields.len(),
{
    if fields.len() == 0 {
        None
    } else if !form_present(s, fields[0]) {
        Some(fields[0])
    } else {
        first_missing_form(s, fields.skip(1))
    }
}

/// When every field can contribute, none is missing.
proof fn lemma_first_missing_form_none(s: OAuthSerializer, fields: Seq<OAuthParameter>)
    requires
        forall|j: int| 0 <= j < fields.len() ==> form_present(s, #[trigger] fields[j]),
    ensures
        first_missing_form(s, fields) is None,
    decreases fields.len(),
{
    if fields.len() > 0 {
        assert forall|j: int| 0 <= j < fields.skip(1).len() implies form_present(
            s,
            #[trigger] fields.skip(1)[j],
        ) by {
            assert(fields.skip(1)[j] == fields[j + 1]);
        }
        lemma_first_missing_form_none(s, fields.skip(1));
    }
}

/// When the fields before `i` can contribute and field `i` cannot, field
/// `i` is the first missing one.
proof fn lemma_first_missing_form_at(s: OAuthSerializer, fields: Seq<OAuthParameter>, i: int)
    requires
        0 <= i < fields.len(),
        forall|j: int| 0 <= j < i ==> form_present(s, #[trigger] fields[j]),
        !form_present(s, fields[i]),
    ensures
        first_missing_form(s, fields) == Some(fields[i]),
    decreases i,
{
    if i > 0 {
        assert(fields.skip(1)[i - 1] == fields[i]);
        assert forall|j: int| 0 <= j < i - 1 implies form_present(
            s,
            #[trigger] fields.skip(1)[j],
        ) by {
            assert(fields.skip(1)[j] == fields[j + 1]);
        }
        lemma_first_missing_form_at(s, fields.skip(1), i - 1);
    }
}

/// Whether an authorization URL can be built: every required field of the
/// authorization phase is present and the endpoint is configured.
pub open spec fn auth_url_ok(s: OAuthSerializer, g: crate::grants::GrantType) -> bool {
    &&& first_missing(s, g.required_spec(crate::grants::GrantRequest::Authorization)) is None
    &&& s.cred(OAuthParameter::AuthorizationUrl) is Some
}

/// The authorization URL that is built: the configured endpoint with the
/// query of the required fields and the present optional fields.
pub open spec fn auth_url_value(s: OAuthSerializer, g: crate::grants::GrantType) -> Seq<char> {
    with_query(
        s.cred(OAuthParameter::AuthorizationUrl).unwrap(),
        crate::encode::chars_of(
            crate::encode::render_query(
                pairs_present(s, g.required_spec(crate::grants::GrantRequest::Authorization))
                    + pairs_present(
                    s,
                    g.optional_spec(crate::grants::GrantRequest::Authorization),
                ),
            ),
        ),
    )
}

/// The alias reported when an authorization URL cannot be built: the first
/// missing required field, or the missing endpoint.
pub open spec fn auth_url_missing(s: OAuthSerializer, g: crate::grants::GrantType) -> Seq<char> {
    match first_missing(s, g.required_spec(crate::grants::GrantRequest::Authorization)) {
        Some(p) => p.alias_spec(),
        None => "authorization_url"@,
    }
}

/// Whether a form body can be built for a grant type and phase: every
/// required field can contribute, the refresh-token field counting its
/// fallback.
pub open spec fn form_ok(
    s: OAuthSerializer,
    g: crate::grants::GrantType,
    rq: crate::grants::GrantRequest,
) -> bool {
    &&& first_missing_form(s, g.required_spec(rq)) is None
    &&& params_ok(s, g.available_spec(rq))
}

/// The form body that is built: the contributing available fields in
/// declared order.
pub open spec fn form_value(
    s: OAuthSerializer,
    g: crate::grants::GrantType,
    rq: crate::grants::GrantRequest,
) -> Seq<(Seq<char>, Seq<char>)> {
    params_pairs(s, g.available_spec(rq))
}

/// The alias reported when a form body cannot be built.
pub open spec fn form_missing(
    s: OAuthSerializer,
    g: crate::grants::GrantType,
    rq: crate::grants::GrantRequest,
) -> Seq<char> {
    match first_missing_form(s, g.required_spec(rq)) {
        Some(p) => p.alias_spec(),
        None => "refresh_token"@,
    }
}

impl OAuthSerializer {
    /// Builds the full authorization URL for a grant type: fixed values are
    /// injected, the required authorization fields are validated in
    /// declared order (the first absent one is the error), present optional
    /// fields follow, and the query is appended to the configured
    /// authorization endpoint. A missing endpoint is an error of its own.
    pub fn authorization_url_for(&mut self, grant: crate::grants::GrantType) -> (r: Result<
        String,
        AuthError,
    >)
        requires
            old(self).wf(),
        ensures
            final(self).wf(),
            injected(
                *old(self),
                *final(self),
                grant,
                crate::grants::GrantRequest::Authorization,
            ),
            r is Ok <==> auth_url_ok(*final(self), grant),
            r matches Ok(u) ==> u@ == auth_url_value(*final(self), grant),
            r matches Err(e) ==> (e matches AuthError::RequiredParameterMissing { alias, .. }
                && alias@ == auth_url_missing(*final(self), grant)),
    {
        self.pre_request_check(grant, crate::grants::GrantRequest::Authorization);
        let required = grant.required_credentials(crate::grants::GrantRequest::Authorization);
        let optional = grant.optional_credentials(crate::grants::GrantRequest::Authorization);
        let query = match self.encode_query(&optional, &required) {
            Ok(q) => q,
            Err(e) => {
                return Err(e);
            },
        };
        let base = match self.get_or_else(OAuthParameter::AuthorizationUrl) {
            Ok(u) => u,
            Err(e) => {
                return Err(e);
            },
        };
        let ghost base_view = base@;
        let mut url = base;
        let n = url.unicode_len();
        let needs_sep = if n == 0 {
            true
        } else {
            !(url.get_char(n - 1) == '?')
        };
        if needs_sep {
            url.append("?");
            proof {
                reveal_strlit("?");
            }
        }
        url.append(query.as_str());
        proof {
            assert(url@ =~= with_query(base_view, query@));
        }
        Ok(url)
    }

    /// Builds the form body of a token or refresh request for a grant type:
    /// fixed values are injected, every required field must be able to
    /// contribute (the refresh-token field counts its fallback), and the
    /// available fields that can contribute are written in declared order.
    pub fn token_request_params(
        &mut self,
        grant: crate::grants::GrantType,
        request_type: crate::grants::GrantRequest,
    ) -> (r: Result<Vec<(String, String)>, AuthError>)
        requires
            old(self).wf(),
        ensures
            final(self).wf(),
            !grant.supports_spec(request_type) ==> *final(self) == *old(self) && (
            r matches Err(e) && e == (AuthError::GrantNotSupported {
                grant,
                request: request_type,
            })),
            grant.supports_spec(request_type) ==> injected(
                *old(self),
                *final(self),
                grant,
                request_type,
            ),
            grant.supports_spec(request_type) ==> {
                &&& (r is Ok <==> form_ok(*final(self), grant, request_type))
                &&& (r matches Ok(v) ==> crate::encode::pair_views(v@) == form_value(
                    *final(self),
                    grant,
                    request_type,
                ))
                &&& (r matches Err(e) ==> (
                e matches AuthError::RequiredParameterMissing { alias, .. } && alias@
                    == form_missing(*final(self), grant, request_type)))
            },
    {
        if !grant.supports(request_type) {
            return Err(AuthError::GrantNotSupported { grant, request: request_type });
        }
        self.pre_request_check(grant, request_type);
        let ghost s_inj = *self;
        let required = grant.required_credentials(request_type);
        let mut i: usize = 0;
        while i < required.len()
            invariant
                i <= required@.len(),
                self.wf(),
                *self == s_inj,
                injected(*old(self), *self, grant, request_type),
                required@ == grant.required_spec(request_type),
                forall|j: int| 0 <= j < i ==> form_present(*self, #[trigger] required@[j]),
            decreases required@.len() - i,
        {
            let f = required[i];
            let ok: bool = if matches!(f, OAuthParameter::RefreshToken) {
                match self.get_refresh_token() {
                    Ok(_) => true,
                    Err(_) => false,
                }
            } else {
                self.contains(f)
            };
            if !ok {
                proof {
                    lemma_first_missing_form_at(*self, required@, i as int);
                }
                return Err(AuthError::required(f.alias()));
            }
            i = i + 1;
        }
        proof {
            lemma_first_missing_form_none(*self, required@);
        }
        let available = grant.available_credentials(request_type);
        self.params(&available)
    }
}

/// The diagnostic entry of one parameter: nothing when it is not set, else
/// its alias and its value, the value behind a fixed placeholder when the
/// parameter is flagged sensitive. Unlike the token renderings there is no
/// PII opt-in here: a stored secret is never printed.
pub open spec fn cred_debug_entry(s: OAuthSerializer, p: OAuthParameter) -> Seq<char> {
    match s.cred(p) {
        Some(v) => " "@ + p.alias_spec() + ": "@ + (if p.is_debug_redacted_spec() {
            "[REDACTED]"@
        } else {
            v
        }),
        None => Seq::empty(),
    }
}

/// The diagnostic entries of the first `n` registry positions, in order.
pub open spec fn creds_debug_upto(s: OAuthSerializer, n: int) -> Seq<char>
    decreases n,
{
    if n <= 0 {
        Seq::empty()
    } else {
        creds_debug_upto(s, n - 1) + cred_debug_entry(s, crate::params::param_at_spec(n - 1))
    }
}

/// The diagnostic rendering of a store: every set parameter's entry, then
/// the scope set.
pub open spec fn store_debug_text(s: OAuthSerializer) -> Seq<char> {
    "OAuthSerializer { credentials: {"@ + creds_debug_upto(s, PARAM_COUNT as int)
        + " }, scopes: "@ + crate::encode::join_with(s.scope_list(), " "@) + " }"@
}

impl OAuthSerializer {
    /// A rendering for diagnostics: exactly [`store_debug_text`], in which
    /// the value of every parameter flagged as sensitive stands behind a
    /// fixed placeholder; nothing here can be switched to print a secret.
    pub fn debug_text(&self) -> (r: String)
        requires
            self.wf(),
        ensures
            r@ == store_debug_text(*self),
    {
        let mut out = String::new();
        out.append("OAuthSerializer { credentials: {");
        let ghost base = out@;
        let mut i: usize = 0;
        proof {
            assert(out@ =~= base + creds_debug_upto(*self, 0));
        }
        while i < PARAM_COUNT
            invariant
                i <= PARAM_COUNT,
                self.wf(),
                base == "OAuthSerializer { credentials: {"@,
                out@ == base + creds_debug_upto(*self, i as int),
            decreases PARAM_COUNT - i,
        {
            let p = crate::params::param_at(i);
            match self.get(p) {
                Some(v) => {
                    out.append(" ");
                    out.append(p.alias());
                    out.append(": ");
                    if p.is_debug_redacted() {
                        out.append("[REDACTED]");
                    } else {
                        out.append(v.as_str());
                    }
                    proof {
                        assert(out@ =~= base + creds_debug_upto(*self, i + 1));
                    }
                },
                None => {
                    proof {
                        assert(cred_debug_entry(*self, crate::params::param_at_spec(i as int))
                            =~= Seq::<char>::empty());
                        assert(out@ =~= base + creds_debug_upto(*self, i + 1));
                    }
                },
            }
            i = i + 1;
        }
        out.append(" }, scopes: ");
        let scopes = self.join_scopes(" ");
        out.append(scopes.as_str());
        out.append(" }");
        proof {
            assert(out@ =~= store_debug_text(*self));
        }
        out
    }
}

/// Whether `b` is `a` with a PKCE triple stored for the given verifier: the
/// challenge is the base64url-encoded SHA-256 digest of the verifier's
/// UTF-8 bytes, the method is `S256`, and nothing else changed.
pub open spec fn pkce_stored(
    a: OAuthSerializer,
    b: OAuthSerializer,
    verifier: Seq<char>,
) -> bool {
    &&& b.cred(OAuthParameter::CodeVerifier) == Some(verifier)
    &&& b.cred(OAuthParameter::CodeChallenge) == Some(
        crate::capability::b64url_of(
            crate::capability::sha256_of(vstd::utf8::encode_utf8(verifier)),
        ),
    )
    &&& b.cred(OAuthParameter::CodeChallengeMethod) == Some("S256"@)
    &&& forall|q: OAuthParameter|
        q != OAuthParameter::CodeVerifier && q != OAuthParameter::CodeChallenge && q
            != OAuthParameter::CodeChallengeMethod ==> #[trigger] b.cred(q) == a.cred(q)
    &&& b.scope_list() == a.scope_list()
    &&& b.stored_token() == a.stored_token()
}

} // verus!
