//! The authorization URL of the authorization-code grant: the initial
//! browser redirect that asks the user to sign in and sends the code back.

use vstd::prelude::*;
use vstd::string::StringExecFns;

use crate::capability::{ascii_to_string, is_valid_url, parses_as_url};
use crate::encode::{chars_of, encode_pairs, join_with, lemma_encode_pairs_ascii, pair_views, render_query};
use crate::error::AuthError;
use crate::grants::GrantType;
use crate::identity::{Authority, AzureCloudInstance, Prompt, ResponseMode};
use crate::serializer::{host_auth_url, with_query};
use crate::text::{clone_opt_string, clone_string_vec, is_blank, str_views, text_is_blank};

verus! {

/// What the authorization leg of the authorization-code grant needs.
pub struct AuthorizationCodeAuthorizationUrl {
    pub client_id: String,
    pub redirect_uri: String,
    pub authority: Authority,
    pub response_mode: ResponseMode,
    pub response_type: String,
    /// Not serialized into the authorization URL; carried for the token leg.
    pub nonce: Option<String>,
    pub state: Option<String>,
    pub scopes: Vec<String>,
    pub prompt: Option<Prompt>,
    pub domain_hint: Option<String>,
    pub login_hint: Option<String>,
    /// Not serialized into the authorization URL; carried for the token leg.
    pub code_verifier: Option<String>,
    pub code_challenge: Option<String>,
    pub code_challenge_method: Option<String>,
}

/// The query pairs of the authorization URL: the required fields in
/// declared order, then the optional fields that were set.
pub open spec fn auth_code_url_pairs(m: AuthorizationCodeAuthorizationUrl) -> Seq<
    (Seq<char>, Seq<char>),
> {
    seq![
        ("client_id"@, m.client_id@),
        ("redirect_uri"@, m.redirect_uri@),
        ("response_type"@, m.response_type@),
        ("response_mode"@, m.response_mode.as_ref_spec()),
        ("scope"@, join_with(str_views(m.scopes@), " "@)),
    ] + (match m.state {
        Some(st) => seq![("state"@, st@)],
        None => Seq::empty(),
    }) + (match m.prompt {
        Some(p) => seq![("prompt"@, p.as_ref_spec())],
        None => Seq::empty(),
    }) + (match m.domain_hint {
        Some(d) => seq![("domain_hint"@, d@)],
        None => Seq::empty(),
    }) + (match m.login_hint {
        Some(l) => seq![("login_hint"@, l@)],
        None => Seq::empty(),
    }) + (match m.code_challenge {
        Some(c) => seq![("code_challenge"@, c@)],
        None => Seq::empty(),
    }) + (match m.code_challenge_method {
        Some(c) => seq![("code_challenge_method"@, c@)],
        None => Seq::empty(),
    })
}

impl AuthorizationCodeAuthorizationUrl {
    pub fn new(client_id: &str, redirect_uri: &str) -> (r: AuthorizationCodeAuthorizationUrl)
        ensures
            r.client_id@ == client_id@,
            r.redirect_uri@ == redirect_uri@,
            r.authority == Authority::Common,
            r.response_mode == ResponseMode::Query,
            r.response_type@ == "code"@,
            r.nonce is None,
            r.state is None,
            r.scopes@.len() == 0,
            r.prompt is None,
            r.domain_hint is None,
            r.login_hint is None,
            r.code_verifier is None,
            r.code_challenge is None,
            r.code_challenge_method is None,
    {
        AuthorizationCodeAuthorizationUrl {
            client_id: client_id.to_owned(),
            redirect_uri: redirect_uri.to_owned(),
            authority: Authority::Common,
            response_mode: ResponseMode::Query,
            response_type: String::from_str("code"),
            nonce: None,
            state: None,
            scopes: Vec::new(),
            prompt: None,
            domain_hint: None,
            login_hint: None,
            code_verifier: None,
            code_challenge: None,
            code_challenge_method: None,
        }
    }

    /// The grant type this URL belongs to.
    pub fn grant_type(&self) -> (r: GrantType)
        ensures
            r == GrantType::AuthorizationCode,
    {
        GrantType::AuthorizationCode
    }

    pub fn builder() -> (r: AuthorizationCodeAuthorizationUrlBuilder)
        ensures
            r.inner().client_id@.len() == 0,
            r.inner().redirect_uri@.len() == 0,
            r.inner().authority == Authority::Common,
            r.inner().response_mode == ResponseMode::Query,
            r.inner().response_type@ == "code"@,
            r.inner().scopes@.len() == 0,
            r.inner().state is None,
            r.inner().code_challenge is None,
            r.inner().code_challenge_method is None,
    {
        let r = AuthorizationCodeAuthorizationUrlBuilder {
            inner: AuthorizationCodeAuthorizationUrl::new("", ""),
        };
        proof {
            reveal_strlit("");
        }
        r
    }

    /// The authorization URL against the public cloud.
    pub fn url(&self) -> (r: Result<String, AuthError>)
        ensures
            auth_code_url_outcome(*self, AzureCloudInstance::AzurePublic, r),
    {
        self.url_with_host(&AzureCloudInstance::AzurePublic)
    }

    /// The authorization URL against the given cloud host: the derived
    /// authorization endpoint with the query of the required fields and the
    /// optional fields that were set. A blank redirect URI or client id and
    /// an empty scope set are errors.
    #[verifier::rlimit(100)]
    pub fn url_with_host(&self, azure_cloud_instance: &AzureCloudInstance) -> (r: Result<
        String,
        AuthError,
    >)
        ensures
            auth_code_url_outcome(*self, *azure_cloud_instance, r),
    {
        if text_is_blank(self.redirect_uri.as_str()) {
            return Err(AuthError::required("redirect_uri"));
        }
        if text_is_blank(self.client_id.as_str()) {
            return Err(AuthError::required("client_id"));
        }
        if self.scopes.len() == 0 {
            return Err(AuthError::required("scope"));
        }
        let mut base = String::new();
        base.append(azure_cloud_instance.as_ref());
        base.append("/");
        base.append(self.authority.as_ref());
        base.append("/oauth2/v2.0/authorize");
        proof {
            assert(base@ =~= host_auth_url(
                azure_cloud_instance.as_ref_spec(),
                self.authority.as_ref_spec(),
            ));
        }
        if !is_valid_url(base.as_str()) {
            let mut alias = String::new();
            alias.append("authorization_url");
            return Err(AuthError::InvalidUrl { alias });
        }
        let mut pairs: Vec<(String, String)> = Vec::new();
        pairs.push((String::from_str("client_id"), self.client_id.clone()));
        pairs.push((String::from_str("redirect_uri"), self.redirect_uri.clone()));
        pairs.push((String::from_str("response_type"), self.response_type.clone()));
        pairs.push((String::from_str("response_mode"), self.response_mode.as_ref().to_owned()));
        pairs.push((String::from_str("scope"), crate::encode::join_strings(&self.scopes, " ")));
        match &self.state {
            Some(st) => pairs.push((String::from_str("state"), st.clone())),
            None => {},
        }
        match &self.prompt {
            Some(p) => pairs.push((String::from_str("prompt"), p.as_ref().to_owned())),
            None => {},
        }
        match &self.domain_hint {
            Some(d) => pairs.push((String::from_str("domain_hint"), d.clone())),
            None => {},
        }
        match &self.login_hint {
            Some(l) => pairs.push((String::from_str("login_hint"), l.clone())),
            None => {},
        }
        match &self.code_challenge {
            Some(c) => pairs.push((String::from_str("code_challenge"), c.clone())),
            None => {},
        }
        match &self.code_challenge_method {
            Some(c) => pairs.push((String::from_str("code_challenge_method"), c.clone())),
            None => {},
        }
        proof {
            assert(pair_views(pairs@) =~~= auth_code_url_pairs(*self));
        }
        let bytes = encode_pairs(&pairs);
        proof {
            lemma_encode_pairs_ascii(pair_views(pairs@));
        }
        let query = ascii_to_string(bytes);
        let ghost base_view = base@;
        let mut url = base;
        url.append("?");
        url.append(query.as_str());
        proof {
            reveal_strlit("?");
            assert(url@ =~= with_query(base_view, query@)) by {
                lemma_host_auth_url_no_question(
                    azure_cloud_instance.as_ref_spec(),
                    self.authority.as_ref_spec(),
                );
            };
        }
        Ok(url)
    }
}

/// What `url_with_host` guarantees, case by case.
pub open spec fn auth_code_url_outcome(
    m: AuthorizationCodeAuthorizationUrl,
    host: AzureCloudInstance,
    r: Result<String, AuthError>,
) -> bool {
    &&& (is_blank(m.redirect_uri@) ==> (r matches Err(e) && (
    e matches AuthError::RequiredParameterMissing { alias, .. } && alias@ == "redirect_uri"@)))
    &&& (!is_blank(m.redirect_uri@) && is_blank(m.client_id@) ==> (r matches Err(e) && (
    e matches AuthError::RequiredParameterMissing { alias, .. } && alias@ == "client_id"@)))
    &&& (!is_blank(m.redirect_uri@) && !is_blank(m.client_id@) && m.scopes@.len() == 0 ==> (
    r matches Err(e) && (e matches AuthError::RequiredParameterMissing { alias, .. } && alias@
        == "scope"@)))
    &&& (!is_blank(m.redirect_uri@) && !is_blank(m.client_id@) && m.scopes@.len() > 0
        && parses_as_url(host_auth_url(host.as_ref_spec(), m.authority.as_ref_spec())) ==> (
    r matches Ok(u) && u@ == with_query(
        host_auth_url(host.as_ref_spec(), m.authority.as_ref_spec()),
        chars_of(render_query(auth_code_url_pairs(m))),
    )))
    &&& (!is_blank(m.redirect_uri@) && !is_blank(m.client_id@) && m.scopes@.len() > 0
        && !parses_as_url(host_auth_url(host.as_ref_spec(), m.authority.as_ref_spec())) ==> (
    r matches Err(e) && e matches AuthError::InvalidUrl { .. }))
}

/// The derived authorization endpoint never ends with `?`: it ends with the
/// fixed `/oauth2/v2.0/authorize` suffix.
proof fn lemma_host_auth_url_no_question(host: Seq<char>, authority: Seq<char>)
    ensures
        host_auth_url(host, authority).len() > 0,
        host_auth_url(host, authority).last() != '?',
{
    reveal_strlit("/oauth2/v2.0/authorize");
    reveal_strlit("?");
    assert("/oauth2/v2.0/authorize"@.len() == 22);
    assert("/oauth2/v2.0/authorize"@[21] == 'e');
    assert(host_auth_url(host, authority).last() == 'e');
}

/// Whether `verifier` is the unpadded base64url encoding of the random
/// bytes `rnd` and `challenge` that of the SHA-256 digest of the
/// verifier's UTF-8 bytes: the PKCE relation of spec-compliant pairs.
pub open spec fn pkce_pair(
    verifier: Option<Seq<char>>,
    challenge: Option<Seq<char>>,
    rnd: Seq<u8>,
) -> bool {
    &&& verifier == Some(crate::capability::b64url_of(rnd))
    &&& challenge == Some(
        crate::capability::b64url_of(
            crate::capability::sha256_of(
                vstd::utf8::encode_utf8(crate::capability::b64url_of(rnd)),
            ),
        ),
    )
}

/// A fluent builder for [`AuthorizationCodeAuthorizationUrlBuilder`]'s
/// parameters.
pub struct AuthorizationCodeAuthorizationUrlBuilder {
    inner: AuthorizationCodeAuthorizationUrl,
}

impl AuthorizationCodeAuthorizationUrlBuilder {
    /// The URL parameters as set so far.
    pub closed spec fn inner(self) -> AuthorizationCodeAuthorizationUrl {
        self.inner
    }

    pub fn new() -> (r: AuthorizationCodeAuthorizationUrlBuilder)
        ensures
            r.inner().client_id@.len() == 0,
            r.inner().redirect_uri@.len() == 0,
            r.inner().authority == Authority::Common,
            r.inner().response_mode == ResponseMode::Query,
            r.inner().response_type@ == "code"@,
            r.inner().scopes@.len() == 0,
    {
        AuthorizationCodeAuthorizationUrl::builder()
    }

    pub fn with_redirect_uri(&mut self, redirect_uri: &str)
        ensures
            final(self).inner() == (AuthorizationCodeAuthorizationUrl {
                redirect_uri: final(self).inner().redirect_uri,
                ..old(self).inner()
            }),
            final(self).inner().redirect_uri@ == redirect_uri@,
    {
        self.inner.redirect_uri = redirect_uri.to_owned();
    }

    pub fn with_client_id(&mut self, client_id: &str)
        ensures
            final(self).inner() == (AuthorizationCodeAuthorizationUrl {
                client_id: final(self).inner().client_id,
                ..old(self).inner()
            }),
            final(self).inner().client_id@ == client_id@,
    {
        self.inner.client_id = client_id.to_owned();
    }

    /// Selects the tenant by id, like `with_authority` with a tenant-id
    /// authority.
    pub fn with_tenant(&mut self, tenant: &str)
        ensures
            final(self).inner() == (AuthorizationCodeAuthorizationUrl {
                authority: final(self).inner().authority,
                ..old(self).inner()
            }),
            final(self).inner().authority matches Authority::TenantId(t) && t@ == tenant@,
    {
        self.inner.authority = Authority::TenantId(tenant.to_owned());
    }

    pub fn with_authority(&mut self, authority: Authority)
        ensures
            final(self).inner() == (AuthorizationCodeAuthorizationUrl {
                authority: final(self).inner().authority,
                ..old(self).inner()
            }),
            final(self).inner().authority == authority,
    {
        self.inner.authority = authority;
    }

    /// Must include `code` for the authorization-code flow; the hybrid flow
    /// may add `id_token` or `token`.
    pub fn with_response_type(&mut self, response_type: &str)
        ensures
            final(self).inner() == (AuthorizationCodeAuthorizationUrl {
                response_type: final(self).inner().response_type,
                ..old(self).inner()
            }),
            final(self).inner().response_type@ == response_type@,
    {
        self.inner.response_type = response_type.to_owned();
    }

    /// How the identity platform returns the requested token.
    pub fn with_response_mode(&mut self, response_mode: ResponseMode)
        ensures
            final(self).inner() == (AuthorizationCodeAuthorizationUrl {
                response_mode: final(self).inner().response_mode,
                ..old(self).inner()
            }),
            final(self).inner().response_mode == response_mode,
    {
        self.inner.response_mode = response_mode;
    }

    /// A value echoed as a claim of the resulting id token, to mitigate
    /// replay.
    pub fn with_nonce(&mut self, nonce: &str)
        ensures
            final(self).inner() == (AuthorizationCodeAuthorizationUrl {
                nonce: final(self).inner().nonce,
                ..old(self).inner()
            }),
            final(self).inner().nonce matches Some(n) && n@ == nonce@,
    {
        self.inner.nonce = Some(nonce.to_owned());
    }

    pub fn with_state(&mut self, state: &str)
        ensures
            final(self).inner() == (AuthorizationCodeAuthorizationUrl {
                state: final(self).inner().state,
                ..old(self).inner()
            }),
            final(self).inner().state matches Some(st) && st@ == state@,
    {
        self.inner.state = Some(state.to_owned());
    }

    pub fn with_scopes(&mut self, scopes: &Vec<String>)
        ensures
            final(self).inner() == (AuthorizationCodeAuthorizationUrl {
                scopes: final(self).inner().scopes,
                ..old(self).inner()
            }),
            final(self).inner().scopes@ == scopes@,
    {
        self.inner.scopes = clone_string_vec(scopes);
    }

    /// The kind of user interaction that is demanded of the sign-in page.
    pub fn with_prompt(&mut self, prompt: Prompt)
        ensures
            final(self).inner() == (AuthorizationCodeAuthorizationUrl {
                prompt: final(self).inner().prompt,
                ..old(self).inner()
            }),
            final(self).inner().prompt == Some(prompt),
    {
        self.inner.prompt = Some(prompt);
    }

    pub fn with_domain_hint(&mut self, domain_hint: &str)
        ensures
            final(self).inner() == (AuthorizationCodeAuthorizationUrl {
                domain_hint: final(self).inner().domain_hint,
                ..old(self).inner()
            }),
            final(self).inner().domain_hint matches Some(d) && d@ == domain_hint@,
    {
        self.inner.domain_hint = Some(domain_hint.to_owned());
    }

    pub fn with_login_hint(&mut self, login_hint: &str)
        ensures
            final(self).inner() == (AuthorizationCodeAuthorizationUrl {
                login_hint: final(self).inner().login_hint,
                ..old(self).inner()
            }),
            final(self).inner().login_hint matches Some(l) && l@ == login_hint@,
    {
        self.inner.login_hint = Some(login_hint.to_owned());
    }

    /// The PKCE code verifier; never part of the authorization URL, but
    /// carried for the token leg.
    pub fn with_code_verifier(&mut self, code_verifier: &str)
        ensures
            final(self).inner() == (AuthorizationCodeAuthorizationUrl {
                code_verifier: final(self).inner().code_verifier,
                ..old(self).inner()
            }),
            final(self).inner().code_verifier matches Some(v) && v@ == code_verifier@,
    {
        self.inner.code_verifier = Some(code_verifier.to_owned());
    }

    /// The PKCE code challenge, demanded when a challenge method is set.
    pub fn with_code_challenge(&mut self, code_challenge: &str)
        ensures
            final(self).inner() == (AuthorizationCodeAuthorizationUrl {
                code_challenge: final(self).inner().code_challenge,
                ..old(self).inner()
            }),
            final(self).inner().code_challenge matches Some(c) && c@ == code_challenge@,
    {
        self.inner.code_challenge = Some(code_challenge.to_owned());
    }

    /// How the code verifier was encoded into the challenge; `S256` unless
    /// the client cannot hash.
    pub fn with_code_challenge_method(&mut self, code_challenge_method: &str)
        ensures
            final(self).inner() == (AuthorizationCodeAuthorizationUrl {
                code_challenge_method: final(self).inner().code_challenge_method,
                ..old(self).inner()
            }),
            final(self).inner().code_challenge_method matches Some(c) && c@
                == code_challenge_method@,
    {
        self.inner.code_challenge_method = Some(code_challenge_method.to_owned());
    }

    /// Generates and stores a PKCE verifier/challenge pair: the verifier is
    /// 32 secure-random bytes base64url-encoded without padding, the
    /// challenge its SHA-256 digest encoded the same way, and the method is
    /// fixed to `S256`. Nothing else changes, and the call fails only if
    /// the random source does.
    pub fn generate_sha256_challenge_and_verifier(&mut self) -> (r: Result<(), AuthError>)
        ensures
            r matches Err(e) ==> final(self).inner() == old(self).inner() && (
            e matches AuthError::CollaboratorFailure { .. }),
            r is Ok ==> {
                &&& final(self).inner() == (AuthorizationCodeAuthorizationUrl {
                    code_verifier: final(self).inner().code_verifier,
                    code_challenge: final(self).inner().code_challenge,
                    code_challenge_method: final(self).inner().code_challenge_method,
                    ..old(self).inner()
                })
                &&& exists|rnd: Seq<u8>|
                    {
                        &&& rnd.len() == 32
                        &&& #[trigger] pkce_pair(
                            final(self).inner().code_verifier.deep_view(),
                            final(self).inner().code_challenge.deep_view(),
                            rnd,
                        )
                    }
                &&& (final(self).inner().code_challenge_method matches Some(cm) && cm@
                    == "S256"@)
            },
    {
        let rnd = match crate::capability::random_32_bytes() {
            Some(v) => v,
            None => {
                let mut reason = String::new();
                reason.append("the secure random source failed");
                return Err(AuthError::CollaboratorFailure { reason });
            },
        };
        let ghost g_rnd = rnd@;
        let verifier = crate::capability::b64url_encode(rnd.as_slice());
        let vbytes = verifier.as_str().as_bytes_vec();
        let digest = crate::capability::sha256_digest(vbytes.as_slice());
        let challenge = crate::capability::b64url_encode(digest.as_slice());
        self.inner.code_verifier = Some(verifier);
        self.inner.code_challenge = Some(challenge);
        self.inner.code_challenge_method = Some(String::from_str("S256"));
        proof {
            assert(pkce_pair(
                self.inner.code_verifier.deep_view(),
                self.inner.code_challenge.deep_view(),
                g_rnd,
            ));
        }
        Ok(())
    }

    /// The URL parameters as set.
    pub fn build(&self) -> (r: AuthorizationCodeAuthorizationUrl)
        ensures
            r.client_id == self.inner().client_id,
            r.redirect_uri == self.inner().redirect_uri,
            r.authority.as_ref_spec() == self.inner().authority.as_ref_spec(),
            r.response_mode == self.inner().response_mode,
            r.response_type == self.inner().response_type,
            r.nonce == self.inner().nonce,
            r.state == self.inner().state,
            r.scopes@ == self.inner().scopes@,
            r.prompt == self.inner().prompt,
            r.domain_hint == self.inner().domain_hint,
            r.login_hint == self.inner().login_hint,
            r.code_verifier == self.inner().code_verifier,
            r.code_challenge == self.inner().code_challenge,
            r.code_challenge_method == self.inner().code_challenge_method,
    {
        AuthorizationCodeAuthorizationUrl {
            client_id: self.inner.client_id.clone(),
            redirect_uri: self.inner.redirect_uri.clone(),
            authority: self.inner.authority.clone(),
            response_mode: self.inner.response_mode,
            response_type: self.inner.response_type.clone(),
            nonce: clone_opt_string(&self.inner.nonce),
            state: clone_opt_string(&self.inner.state),
            scopes: clone_string_vec(&self.inner.scopes),
            prompt: self.inner.prompt,
            domain_hint: clone_opt_string(&self.inner.domain_hint),
            login_hint: clone_opt_string(&self.inner.login_hint),
            code_verifier: clone_opt_string(&self.inner.code_verifier),
            code_challenge: clone_opt_string(&self.inner.code_challenge),
            code_challenge_method: clone_opt_string(&self.inner.code_challenge_method),
        }
    }
}

} // verus!
