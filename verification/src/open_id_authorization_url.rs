//! The OpenID Connect authorization URL: single sign-on through an id
//! token. The `openid` scope is included from the start and a
//! cryptographically random nonce is generated up front.

use vstd::prelude::*;
use vstd::string::StringExecFns;

use crate::capability::{
    ascii_to_string, b64url_encode, is_valid_url, parses_as_url, random_32_bytes,
};
use crate::encode::{chars_of, encode_pairs, join_with, lemma_encode_pairs_ascii, pair_views, render_query};
use crate::error::AuthError;
use crate::identity::{
    join_prompts, join_response_types, prompts_query, response_types_query, Authority,
    AzureCloudInstance, Prompt, ResponseMode, ResponseType,
};
use crate::serializer::{host_auth_url, with_query};
use crate::text::{clone_opt_string, clone_string_vec, str_views};

verus! {

/// What the OpenID Connect authorization leg needs.
pub struct OpenIdAuthorizationUrl {
    pub client_id: String,
    pub redirect_uri: String,
    /// Must include `code` for OpenID Connect sign-in.
    pub response_type: Vec<ResponseType>,
    pub response_mode: Option<ResponseMode>,
    /// Echoed as a claim of the id token, to mitigate replay. Generated
    /// from the secure random source unless explicitly set.
    pub nonce: String,
    pub state: Option<String>,
    /// Must include `openid`; it is there from the start.
    pub scope: Vec<String>,
    pub prompt: Vec<Prompt>,
    pub domain_hint: Option<String>,
    pub login_hint: Option<String>,
    pub authority: Authority,
}

/// The query pairs of the OpenID Connect URL: the required fields in
/// declared order, then the optional fields that were set.
pub open spec fn open_id_url_pairs(m: OpenIdAuthorizationUrl) -> Seq<(Seq<char>, Seq<char>)> {
    seq![
        ("client_id"@, m.client_id@),
        ("redirect_uri"@, m.redirect_uri@),
        ("response_type"@, response_types_query(m.response_type@)),
        ("scope"@, join_with(str_views(m.scope@), " "@)),
        ("nonce"@, m.nonce@),
    ] + (match m.response_mode {
        Some(rm) => seq![("response_mode"@, rm.as_ref_spec())],
        None => Seq::empty(),
    }) + (match m.state {
        Some(st) => seq![("state"@, st@)],
        None => Seq::empty(),
    }) + (if m.prompt@.len() > 0 {
        seq![("prompt"@, prompts_query(m.prompt@))]
    } else {
        Seq::empty()
    }) + (match m.domain_hint {
        Some(d) => seq![("domain_hint"@, d@)],
        None => Seq::empty(),
    }) + (match m.login_hint {
        Some(l) => seq![("login_hint"@, l@)],
        None => Seq::empty(),
    })
}

/// What `url_with_host` guarantees, case by case.
pub open spec fn open_id_url_outcome(
    m: OpenIdAuthorizationUrl,
    host: AzureCloudInstance,
    r: Result<String, AuthError>,
) -> bool {
    &&& (m.scope@.len() == 0 ==> (r matches Err(e) && (
    e matches AuthError::RequiredParameterMissing { alias, .. } && alias@ == "scope"@)))
    &&& (m.scope@.len() > 0 && parses_as_url(
        host_auth_url(host.as_ref_spec(), m.authority.as_ref_spec()),
    ) ==> (r matches Ok(u) && u@ == with_query(
        host_auth_url(host.as_ref_spec(), m.authority.as_ref_spec()),
        chars_of(render_query(open_id_url_pairs(m))),
    )))
    &&& (m.scope@.len() > 0 && !parses_as_url(
        host_auth_url(host.as_ref_spec(), m.authority.as_ref_spec()),
    ) ==> (r matches Err(e) && e matches AuthError::InvalidUrl { .. }))
}

impl OpenIdAuthorizationUrl {
    /// A new URL description with a generated nonce and the `openid` scope.
    /// Fails only if the random source does.
    pub fn new(client_id: &str, redirect_uri: &str) -> (r: Result<
        OpenIdAuthorizationUrl,
        AuthError,
    >)
        ensures
            r matches Ok(m) ==> {
                &&& m.client_id@ == client_id@
                &&& m.redirect_uri@ == redirect_uri@
                &&& m.response_type@.len() == 1 && m.response_type@[0] == ResponseType::Code
                &&& m.response_mode is None
                &&& m.nonce@.len() == 43 && generated_nonce(m.nonce@)
                &&& m.state is None
                &&& m.scope@.len() == 1 && m.scope@[0]@ == "openid"@
                &&& m.prompt@.len() == 0
                &&& m.domain_hint is None
                &&& m.login_hint is None
                &&& m.authority == Authority::Common
            },
            r matches Err(e) ==> e matches AuthError::CollaboratorFailure { .. },
    {
        let nonce = match secure_random_string() {
            Ok(n) => n,
            Err(e) => {
                return Err(e);
            },
        };
        let mut response_type: Vec<ResponseType> = Vec::new();
        response_type.push(ResponseType::Code);
        let mut scope: Vec<String> = Vec::new();
        scope.push(String::from_str("openid"));
        Ok(
            OpenIdAuthorizationUrl {
                client_id: client_id.to_owned(),
                redirect_uri: redirect_uri.to_owned(),
                response_type,
                response_mode: None,
                nonce,
                state: None,
                scope,
                prompt: Vec::new(),
                domain_hint: None,
                login_hint: None,
                authority: Authority::Common,
            },
        )
    }

    pub fn builder() -> (r: Result<OpenIdAuthorizationUrlBuilder, AuthError>)
        ensures
            r matches Ok(b) ==> b.inner().nonce@.len() == 43,
    {
        let inner = match OpenIdAuthorizationUrl::new("", "") {
            Ok(m) => m,
            Err(e) => {
                return Err(e);
            },
        };
        Ok(OpenIdAuthorizationUrlBuilder { auth_url_parameters: inner })
    }

    /// The authorization URL against the public cloud.
    pub fn url(&self) -> (r: Result<String, AuthError>)
        ensures
            open_id_url_outcome(*self, AzureCloudInstance::AzurePublic, r),
    {
        self.url_with_host(&AzureCloudInstance::AzurePublic)
    }

    /// The authorization URL against the given cloud host: the derived
    /// authorization endpoint with the query of the required fields and
    /// the optional fields that were set. An empty scope set is an error.
    #[verifier::rlimit(100)]
    pub fn url_with_host(&self, azure_cloud_instance: &AzureCloudInstance) -> (r: Result<
        String,
        AuthError,
    >)
        ensures
            open_id_url_outcome(*self, *azure_cloud_instance, r),
    {
        if self.scope.len() == 0 {
            return Err(AuthError::required("scope"));
        }
        let mut base = String::new();
        base.append(azure_cloud_instance.as_ref());
        base.append("/");
        base.append(self.authority.as_ref());
        base.append("/oauth2/v2.0/authorize");
        proof {
            assert(base@ =~= host_auth_url(
                azure_cloud_instance.as_ref_spec(),
                self.authority.as_ref_spec(),
            ));
        }
        if !is_valid_url(base.as_str()) {
            let mut alias = String::new();
            alias.append("authorization_url");
            return Err(AuthError::InvalidUrl { alias });
        }
        let mut pairs: Vec<(String, String)> = Vec::new();
        pairs.push((String::from_str("client_id"), self.client_id.clone()));
        pairs.push((String::from_str("redirect_uri"), self.redirect_uri.clone()));
        pairs.push((String::from_str("response_type"), join_response_types(&self.response_type)));
        pairs.push((String::from_str("scope"), crate::encode::join_strings(&self.scope, " ")));
        pairs.push((String::from_str("nonce"), self.nonce.clone()));
        match &self.response_mode {
            Some(rm) => pairs.push((String::from_str("response_mode"), rm.as_ref().to_owned())),
            None => {},
        }
        match &self.state {
            Some(st) => pairs.push((String::from_str("state"), st.clone())),
            None => {},
        }
        if self.prompt.len() > 0 {
            pairs.push((String::from_str("prompt"), join_prompts(&self.prompt)));
        }
        match &self.domain_hint {
            Some(d) => pairs.push((String::from_str("domain_hint"), d.clone())),
            None => {},
        }
        match &self.login_hint {
            Some(l) => pairs.push((String::from_str("login_hint"), l.clone())),
            None => {},
        }
        proof {
            assert(pair_views(pairs@) =~~= open_id_url_pairs(*self));
        }
        let bytes = encode_pairs(&pairs);
        proof {
            lemma_encode_pairs_ascii(pair_views(pairs@));
        }
        let query = ascii_to_string(bytes);
        let ghost base_view = base@;
        let mut url = base;
        url.append("?");
        url.append(query.as_str());
        proof {
            reveal_strlit("?");
            reveal_strlit("/oauth2/v2.0/authorize");
            assert("/oauth2/v2.0/authorize"@[21] == 'e');
            assert(url@ =~= with_query(base_view, query@));
        }
        Ok(url)
    }
}

/// Whether a text is the unpadded base64url encoding of 32 random bytes —
/// the shape of a generated nonce.
pub open spec fn generated_nonce(s: Seq<char>) -> bool {
    exists|rnd: Seq<u8>| rnd.len() == 32 && s == #[trigger] crate::capability::b64url_of(rnd)
}

/// A 43-character URL-safe random string: 32 secure-random bytes,
/// base64url-encoded without padding. Fails only if the random source does.
fn secure_random_string() -> (r: Result<String, AuthError>)
    ensures
        r matches Ok(s) ==> s@.len() == 43 && generated_nonce(s@),
        r matches Err(e) ==> e matches AuthError::CollaboratorFailure { .. },
{
    match random_32_bytes() {
        Some(rnd) => {
            let ghost g_rnd = rnd@;
            let encoded = b64url_encode(rnd.as_slice());
            proof {
                assert(encoded@ == crate::capability::b64url_of(g_rnd));
            }
            Ok(encoded)
        },
        None => {
            let mut reason = String::new();
            reason.append("the secure random source failed");
            Err(AuthError::CollaboratorFailure { reason })
        },
    }
}

/// A fluent builder for [`OpenIdAuthorizationUrl`].
pub struct OpenIdAuthorizationUrlBuilder {
    auth_url_parameters: OpenIdAuthorizationUrl,
}

impl OpenIdAuthorizationUrlBuilder {
    /// The URL parameters as set so far.
    pub closed spec fn inner(self) -> OpenIdAuthorizationUrl {
        self.auth_url_parameters
    }

    pub fn with_redirect_uri(&mut self, redirect_uri: &str)
        ensures
            final(self).inner() == (OpenIdAuthorizationUrl {
                redirect_uri: final(self).inner().redirect_uri,
                ..old(self).inner()
            }),
            final(self).inner().redirect_uri@ == redirect_uri@,
    {
        self.auth_url_parameters.redirect_uri = redirect_uri.to_owned();
    }

    pub fn with_client_id(&mut self, client_id: &str)
        ensures
            final(self).inner() == (OpenIdAuthorizationUrl {
                client_id: final(self).inner().client_id,
                ..old(self).inner()
            }),
            final(self).inner().client_id@ == client_id@,
    {
        self.auth_url_parameters.client_id = client_id.to_owned();
    }

    /// Selects the tenant by id, like `with_authority` with a tenant-id
    /// authority.
    pub fn with_tenant(&mut self, tenant: &str)
        ensures
            final(self).inner() == (OpenIdAuthorizationUrl {
                authority: final(self).inner().authority,
                ..old(self).inner()
            }),
            final(self).inner().authority matches Authority::TenantId(t) && t@ == tenant@,
    {
        self.auth_url_parameters.authority = Authority::TenantId(tenant.to_owned());
    }

    pub fn with_authority(&mut self, authority: Authority)
        ensures
            final(self).inner() == (OpenIdAuthorizationUrl {
                authority: final(self).inner().authority,
                ..old(self).inner()
            }),
            final(self).inner().authority == authority,
    {
        self.auth_url_parameters.authority = authority;
    }

    /// Must include `code`; the hybrid flow may add `id_token` or `token`.
    pub fn with_response_type(&mut self, response_type: &Vec<ResponseType>)
        ensures
            final(self).inner() == (OpenIdAuthorizationUrl {
                response_type: final(self).inner().response_type,
                ..old(self).inner()
            }),
            final(self).inner().response_type@ == response_type@,
    {
        let mut copy: Vec<ResponseType> = Vec::new();
        let mut i: usize = 0;
        while i < response_type.len()
            invariant
                i <= response_type@.len(),
                copy@ =~= response_type@.take(i as int),
            decreases response_type@.len() - i,
        {
            copy.push(response_type[i]);
            proof {
                assert(copy@ =~= response_type@.take(i + 1));
            }
            i = i + 1;
        }
        proof {
            assert(response_type@.take(response_type@.len() as int) =~= response_type@);
        }
        self.auth_url_parameters.response_type = copy;
    }

    /// How the identity platform returns the requested token.
    pub fn with_response_mode(&mut self, response_mode: ResponseMode)
        ensures
            final(self).inner() == (OpenIdAuthorizationUrl {
                response_mode: final(self).inner().response_mode,
                ..old(self).inner()
            }),
            final(self).inner().response_mode == Some(response_mode),
    {
        self.auth_url_parameters.response_mode = Some(response_mode);
    }

    /// Replaces the generated nonce. The generated one is cryptographically
    /// secure; set your own only if you know what that trades away.
    pub fn with_nonce(&mut self, nonce: &str)
        ensures
            final(self).inner() == (OpenIdAuthorizationUrl {
                nonce: final(self).inner().nonce,
                ..old(self).inner()
            }),
            final(self).inner().nonce@ == nonce@,
    {
        self.auth_url_parameters.nonce = nonce.to_owned();
    }

    pub fn with_state(&mut self, state: &str)
        ensures
            final(self).inner() == (OpenIdAuthorizationUrl {
                state: final(self).inner().state,
                ..old(self).inner()
            }),
            final(self).inner().state matches Some(st) && st@ == state@,
    {
        self.auth_url_parameters.state = Some(state.to_owned());
    }

    pub fn with_scope(&mut self, scopes: &Vec<String>)
        ensures
            final(self).inner() == (OpenIdAuthorizationUrl {
                scope: final(self).inner().scope,
                ..old(self).inner()
            }),
            final(self).inner().scope@ == scopes@,
    {
        self.auth_url_parameters.scope = clone_string_vec(scopes);
    }

    /// Regenerates the nonce, sets a form-post response mode, asks for
    /// `code` and `id_token`, and replaces the scope list with the default
    /// sign-in scopes; everything else stays. Fails only if the random
    /// source does.
    pub fn with_default_scope(&mut self) -> (r: Result<(), AuthError>)
        ensures
            r matches Err(e) ==> final(self).inner() == old(self).inner() && (
            e matches AuthError::CollaboratorFailure { .. }),
            r is Ok ==> {
                &&& final(self).inner() == (OpenIdAuthorizationUrl {
                    nonce: final(self).inner().nonce,
                    response_mode: final(self).inner().response_mode,
                    response_type: final(self).inner().response_type,
                    scope: final(self).inner().scope,
                    ..old(self).inner()
                })
                &&& final(self).inner().response_mode == Some(ResponseMode::FormPost)
                &&& final(self).inner().response_type@ =~= seq![
                    ResponseType::Code,
                    ResponseType::IdToken,
                ]
                &&& str_views(final(self).inner().scope@) =~~= seq![
                    "profile"@,
                    "email"@,
                    "id_token"@,
                    "offline_access"@,
                ]
                &&& final(self).inner().nonce@.len() == 43 && generated_nonce(
                    final(self).inner().nonce@,
                )
            },
    {
        let nonce = match secure_random_string() {
            Ok(n) => n,
            Err(e) => {
                return Err(e);
            },
        };
        self.auth_url_parameters.nonce = nonce;
        self.auth_url_parameters.response_mode = Some(ResponseMode::FormPost);
        let mut response_type: Vec<ResponseType> = Vec::new();
        response_type.push(ResponseType::Code);
        response_type.push(ResponseType::IdToken);
        self.auth_url_parameters.response_type = response_type;
        let mut scope: Vec<String> = Vec::new();
        scope.push(String::from_str("profile"));
        scope.push(String::from_str("email"));
        scope.push(String::from_str("id_token"));
        scope.push(String::from_str("offline_access"));
        self.auth_url_parameters.scope = scope;
        proof {
            assert(str_views(self.auth_url_parameters.scope@) =~~= seq![
                "profile"@,
                "email"@,
                "id_token"@,
                "offline_access"@,
            ]);
        }
        Ok(())
    }

    /// The kinds of user interaction demanded of the sign-in page.
    pub fn with_prompt(&mut self, prompt: &Vec<Prompt>)
        ensures
            final(self).inner() == (OpenIdAuthorizationUrl {
                prompt: final(self).inner().prompt,
                ..old(self).inner()
            }),
            final(self).inner().prompt@ == prompt@,
    {
        let mut copy: Vec<Prompt> = Vec::new();
        let mut i: usize = 0;
        while i < prompt.len()
            invariant
                i <= prompt@.len(),
                copy@ =~= prompt@.take(i as int),
            decreases prompt@.len() - i,
        {
            copy.push(prompt[i]);
            proof {
                assert(copy@ =~= prompt@.take(i + 1));
            }
            i = i + 1;
        }
        proof {
            assert(prompt@.take(prompt@.len() as int) =~= prompt@);
        }
        self.auth_url_parameters.prompt = copy;
    }

    /// The realm of a federated user, to skip email-based discovery.
    pub fn with_domain_hint(&mut self, domain_hint: &str)
        ensures
            final(self).inner() == (OpenIdAuthorizationUrl {
                domain_hint: final(self).inner().domain_hint,
                ..old(self).inner()
            }),
            final(self).inner().domain_hint matches Some(d) && d@ == domain_hint@,
    {
        self.auth_url_parameters.domain_hint = Some(domain_hint.to_owned());
    }

    /// A username to pre-fill on the sign-in page.
    pub fn with_login_hint(&mut self, login_hint: &str)
        ensures
            final(self).inner() == (OpenIdAuthorizationUrl {
                login_hint: final(self).inner().login_hint,
                ..old(self).inner()
            }),
            final(self).inner().login_hint matches Some(l) && l@ == login_hint@,
    {
        self.auth_url_parameters.login_hint = Some(login_hint.to_owned());
    }

    /// The URL parameters as set.
    pub fn build(&self) -> (r: OpenIdAuthorizationUrl)
        ensures
            r.client_id == self.inner().client_id,
            r.redirect_uri == self.inner().redirect_uri,
            r.response_type@ == self.inner().response_type@,
            r.response_mode == self.inner().response_mode,
            r.nonce == self.inner().nonce,
            r.state == self.inner().state,
            r.scope@ == self.inner().scope@,
            r.prompt@ == self.inner().prompt@,
            r.domain_hint == self.inner().domain_hint,
            r.login_hint == self.inner().login_hint,
            r.authority.as_ref_spec() == self.inner().authority.as_ref_spec(),
    {
        let mut response_type: Vec<ResponseType> = Vec::new();
        let mut i: usize = 0;
        while i < self.auth_url_parameters.response_type.len()
            invariant
                i <= self.auth_url_parameters.response_type@.len(),
                response_type@ =~= self.auth_url_parameters.response_type@.take(i as int),
            decreases self.auth_url_parameters.response_type@.len() - i,
        {
            response_type.push(self.auth_url_parameters.response_type[i]);
            proof {
                assert(response_type@ =~= self.auth_url_parameters.response_type@.take(i + 1));
            }
            i = i + 1;
        }
        let mut prompt: Vec<Prompt> = Vec::new();
        let mut j: usize = 0;
        while j < self.auth_url_parameters.prompt.len()
            invariant
                j <= self.auth_url_parameters.prompt@.len(),
                prompt@ =~= self.auth_url_parameters.prompt@.take(j as int),
            decreases self.auth_url_parameters.prompt@.len() - j,
        {
            prompt.push(self.auth_url_parameters.prompt[j]);
            proof {
                assert(prompt@ =~= self.auth_url_parameters.prompt@.take(j + 1));
            }
            j = j + 1;
        }
        proof {
            assert(self.auth_url_parameters.response_type@.take(
                self.auth_url_parameters.response_type@.len() as int,
            ) =~= self.auth_url_parameters.response_type@);
            assert(self.auth_url_parameters.prompt@.take(
                self.auth_url_parameters.prompt@.len() as int,
            ) =~= self.auth_url_parameters.prompt@);
        }
        OpenIdAuthorizationUrl {
            client_id: self.auth_url_parameters.client_id.clone(),
            redirect_uri: self.auth_url_parameters.redirect_uri.clone(),
            response_type,
            response_mode: self.auth_url_parameters.response_mode,
            nonce: self.auth_url_parameters.nonce.clone(),
            state: clone_opt_string(&self.auth_url_parameters.state),
            scope: clone_string_vec(&self.auth_url_parameters.scope),
            prompt,
            domain_hint: clone_opt_string(&self.auth_url_parameters.domain_hint),
            login_hint: clone_opt_string(&self.auth_url_parameters.login_hint),
            authority: self.auth_url_parameters.authority.clone(),
        }
    }
}

} // verus!
