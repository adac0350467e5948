//! The legacy token-flow authorization URL: a sign-in for personal
//! accounts whose token rides back directly in the redirect fragment.

use vstd::prelude::*;
use vstd::string::StringExecFns;

use crate::capability::{ascii_to_string, is_valid_url, parses_as_url};
use crate::encode::{chars_of, encode_pairs, join_with, lemma_encode_pairs_ascii, pair_views, render_query};
use crate::error::AuthError;
use crate::identity::{AzureCloudInstance, ResponseType};
use crate::serializer::with_query;
use crate::text::{clone_string_vec, is_blank, str_views, text_is_blank};

verus! {

/// What the token flow's authorization leg needs.
pub struct TokenFlowAuthorizationUrl {
    pub client_id: String,
    pub redirect_uri: String,
    pub response_type: ResponseType,
    pub scope: Vec<String>,
}

/// The query pairs of the token-flow URL: every field is required, in this
/// order.
pub open spec fn token_flow_url_pairs(m: TokenFlowAuthorizationUrl) -> Seq<
    (Seq<char>, Seq<char>),
> {
    seq![
        ("client_id"@, m.client_id@),
        ("redirect_uri"@, m.redirect_uri@),
        ("scope"@, join_with(str_views(m.scope@), " "@)),
        ("response_type"@, m.response_type.as_ref_spec()),
    ]
}

/// What [`TokenFlowAuthorizationUrl::url`] guarantees, case by case.
pub open spec fn token_flow_url_outcome(
    m: TokenFlowAuthorizationUrl,
    r: Result<String, AuthError>,
) -> bool {
    &&& (is_blank(m.redirect_uri@) ==> (r matches Err(e) && (
    e matches AuthError::RequiredParameterMissing { alias, .. } && alias@ == "redirect_uri"@)))
    &&& (!is_blank(m.redirect_uri@) && is_blank(m.client_id@) ==> (r matches Err(e) && (
    e matches AuthError::RequiredParameterMissing { alias, .. } && alias@ == "client_id"@)))
    &&& (!is_blank(m.redirect_uri@) && !is_blank(m.client_id@) && m.scope@.len() == 0 ==> (
    r matches Err(e) && (e matches AuthError::RequiredParameterMissing { alias, .. } && alias@
        == "scope"@)))
    &&& (!is_blank(m.redirect_uri@) && !is_blank(m.client_id@) && m.scope@.len() > 0
        && parses_as_url(AzureCloudInstance::OneDriveAndSharePoint.as_ref_spec()) ==> (
    r matches Ok(u) && u@ == with_query(
        AzureCloudInstance::OneDriveAndSharePoint.as_ref_spec(),
        chars_of(render_query(token_flow_url_pairs(m))),
    )))
}

impl TokenFlowAuthorizationUrl {
    pub fn new(client_id: &str, redirect_uri: &str, scope: &Vec<String>) -> (r:
        TokenFlowAuthorizationUrl)
        ensures
            r.client_id@ == client_id@,
            r.redirect_uri@ == redirect_uri@,
            r.response_type == ResponseType::Token,
            r.scope@ == scope@,
    {
        TokenFlowAuthorizationUrl {
            client_id: client_id.to_owned(),
            redirect_uri: redirect_uri.to_owned(),
            response_type: ResponseType::Token,
            scope: clone_string_vec(scope),
        }
    }

    pub fn builder() -> (r: TokenFlowAuthorizationUrlBuilder)
        ensures
            r.inner().client_id@.len() == 0,
            r.inner().redirect_uri@.len() == 0,
            r.inner().response_type == ResponseType::Token,
            r.inner().scope@.len() == 0,
    {
        TokenFlowAuthorizationUrlBuilder {
            inner: TokenFlowAuthorizationUrl {
                client_id: String::new(),
                redirect_uri: String::new(),
                response_type: ResponseType::Token,
                scope: Vec::new(),
            },
        }
    }

    /// The legacy authorization URL: the OneDrive and SharePoint host with
    /// the query of the four required fields. A blank redirect URI or
    /// client id and an empty scope set are errors, in that order.
    pub fn url(&self) -> (r: Result<String, AuthError>)
        ensures
            token_flow_url_outcome(*self, r),
    {
        if text_is_blank(self.redirect_uri.as_str()) {
            return Err(AuthError::required("redirect_uri"));
        }
        if text_is_blank(self.client_id.as_str()) {
            return Err(AuthError::required("client_id"));
        }
        if self.scope.len() == 0 {
            return Err(AuthError::required("scope"));
        }
        let host = AzureCloudInstance::OneDriveAndSharePoint;
        let base = host.as_ref().to_owned();
        if !is_valid_url(base.as_str()) {
            let mut alias = String::new();
            alias.append("authorization_url");
            return Err(AuthError::InvalidUrl { alias });
        }
        let mut pairs: Vec<(String, String)> = Vec::new();
        pairs.push((String::from_str("client_id"), self.client_id.clone()));
        pairs.push((String::from_str("redirect_uri"), self.redirect_uri.clone()));
        pairs.push((String::from_str("scope"), crate::encode::join_strings(&self.scope, " ")));
        pairs.push((String::from_str("response_type"), self.response_type.as_ref().to_owned()));
        proof {
            assert(pair_views(pairs@) =~~= token_flow_url_pairs(*self));
        }
        let bytes = encode_pairs(&pairs);
        proof {
            lemma_encode_pairs_ascii(pair_views(pairs@));
        }
        let query = ascii_to_string(bytes);
        let ghost base_view = base@;
        let mut url = base;
        url.append("?");
        url.append(query.as_str());
        proof {
            reveal_strlit("?");
            reveal_strlit("https://login.live.com");
            assert("https://login.live.com"@[21] == 'm');
            assert(url@ =~= with_query(base_view, query@));
        }
        Ok(url)
    }
}

/// A fluent builder for [`TokenFlowAuthorizationUrl`].
pub struct TokenFlowAuthorizationUrlBuilder {
    inner: TokenFlowAuthorizationUrl,
}

impl TokenFlowAuthorizationUrlBuilder {
    /// The URL parameters as set so far.
    pub closed spec fn inner(self) -> TokenFlowAuthorizationUrl {
        self.inner
    }

    pub fn with_client_id(&mut self, client_id: &str)
        ensures
            final(self).inner() == (TokenFlowAuthorizationUrl {
                client_id: final(self).inner().client_id,
                ..old(self).inner()
            }),
            final(self).inner().client_id@ == client_id@,
    {
        self.inner.client_id = client_id.to_owned();
    }

    pub fn with_scope(&mut self, scope: &Vec<String>)
        ensures
            final(self).inner() == (TokenFlowAuthorizationUrl {
                scope: final(self).inner().scope,
                ..old(self).inner()
            }),
            final(self).inner().scope@ == scope@,
    {
        self.inner.scope = clone_string_vec(scope);
    }

    pub fn with_redirect_uri(&mut self, redirect_uri: &str)
        ensures
            final(self).inner() == (TokenFlowAuthorizationUrl {
                redirect_uri: final(self).inner().redirect_uri,
                ..old(self).inner()
            }),
            final(self).inner().redirect_uri@ == redirect_uri@,
    {
        self.inner.redirect_uri = redirect_uri.to_owned();
    }

    /// The URL parameters as set.
    pub fn build(&self) -> (r: TokenFlowAuthorizationUrl)
        ensures
            r.client_id == self.inner().client_id,
            r.redirect_uri == self.inner().redirect_uri,
            r.response_type == self.inner().response_type,
            r.scope@ == self.inner().scope@,
    {
        TokenFlowAuthorizationUrl {
            client_id: self.inner.client_id.clone(),
            redirect_uri: self.inner.redirect_uri.clone(),
            response_type: self.inner.response_type,
            scope: clone_string_vec(&self.inner.scope),
        }
    }
}

} // verus!
