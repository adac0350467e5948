//! The identity-platform vocabulary: authority (tenant) selectors, cloud
//! instance hosts, response modes and types, and sign-in prompts, each with
//! its exact wire string.

use vstd::prelude::*;
use vstd::string::StringExecFns;

use crate::encode::join_with;

verus! {

/// The Azure Active Directory tenant selector of an authorization request.
#[derive(Debug)]
pub enum Authority {
    AzureActiveDirectory,
    AzureDirectoryFederatedServices,
    Common,
    Organizations,
    Consumers,
    TenantId(String),
}

impl Authority {
    /// The path segment this authority selects, as a mathematical value.
    pub open spec fn as_ref_spec(self) -> Seq<char> {
        match self {
            Authority::AzureActiveDirectory => "common"@,
            Authority::AzureDirectoryFederatedServices => "adfs"@,
            Authority::Common => "common"@,
            Authority::Organizations => "organizations"@,
            Authority::Consumers => "consumers"@,
            Authority::TenantId(s) => s@,
        }
    }

    /// The path segment this authority selects.
    pub fn as_ref(&self) -> (r: &str)
        ensures
            r@ == self.as_ref_spec(),
    {
        match self {
            Authority::AzureActiveDirectory => "common",
            Authority::AzureDirectoryFederatedServices => "adfs",
            Authority::Common => "common",
            Authority::Organizations => "organizations",
            Authority::Consumers => "consumers",
            Authority::TenantId(s) => s.as_str(),
        }
    }

    /// The authority selecting a tenant by id.
    pub fn tenant_id(tenant: &str) -> (r: Authority)
        ensures
            r matches Authority::TenantId(t) && t@ == tenant@,
    {
        Authority::TenantId(tenant.to_owned())
    }
}

impl Clone for Authority {
    /// A copy that selects the same authority.
    fn clone(&self) -> (res: Self)
        ensures
            res.as_ref_spec() == self.as_ref_spec(),
            res matches Authority::TenantId(_) <==> self matches Authority::TenantId(_),
    {
        match self {
            Authority::AzureActiveDirectory => Authority::AzureActiveDirectory,
            Authority::AzureDirectoryFederatedServices => Authority::AzureDirectoryFederatedServices,
            Authority::Common => Authority::Common,
            Authority::Organizations => Authority::Organizations,
            Authority::Consumers => Authority::Consumers,
            Authority::TenantId(s) => Authority::TenantId(s.clone()),
        }
    }
}

impl PartialEq for Authority {
    fn eq(&self, other: &Self) -> (r: bool) {
        match (self, other) {
            (Authority::AzureActiveDirectory, Authority::AzureActiveDirectory) => true,
            (
                Authority::AzureDirectoryFederatedServices,
                Authority::AzureDirectoryFederatedServices,
            ) => true,
            (Authority::Common, Authority::Common) => true,
            (Authority::Organizations, Authority::Organizations) => true,
            (Authority::Consumers, Authority::Consumers) => true,
            (Authority::TenantId(a), Authority::TenantId(b)) => *a == *b,
            _ => false,
        }
    }
}

impl vstd::std_specs::cmp::PartialEqSpecImpl for Authority {
    open spec fn obeys_eq_spec() -> bool {
        true
    }

    open spec fn eq_spec(&self, other: &Self) -> bool {
        match (self, other) {
            (Authority::AzureActiveDirectory, Authority::AzureActiveDirectory) => true,
            (
                Authority::AzureDirectoryFederatedServices,
                Authority::AzureDirectoryFederatedServices,
            ) => true,
            (Authority::Common, Authority::Common) => true,
            (Authority::Organizations, Authority::Organizations) => true,
            (Authority::Consumers, Authority::Consumers) => true,
            (Authority::TenantId(a), Authority::TenantId(b)) => a@ == b@,
            _ => false,
        }
    }
}

impl Eq for Authority {

}

impl Default for Authority {
    /// The default authority: the `common` endpoint.
    fn default() -> (r: Self)
        ensures
            r == Authority::Common,
    {
        Authority::Common
    }
}

/// The national-cloud host an authorization request is sent to.
#[derive(Debug, Copy, Clone, PartialEq, Eq, Structural)]
pub enum AzureCloudInstance {
    AzurePublic,
    AzureChina,
    AzureGermany,
    AzureUsGovernment,
    OneDriveAndSharePoint,
}

impl AzureCloudInstance {
    /// The base URL of this cloud instance, as a mathematical value.
    pub open spec fn as_ref_spec(self) -> Seq<char> {
        match self {
            AzureCloudInstance::AzurePublic => "https://login.microsoftonline.com"@,
            AzureCloudInstance::AzureChina => "https://login.chinacloudapi.cn"@,
            AzureCloudInstance::AzureGermany => "https://login.microsoftonline.de"@,
            AzureCloudInstance::AzureUsGovernment => "https://login.microsoftonline.us"@,
            AzureCloudInstance::OneDriveAndSharePoint => "https://login.live.com"@,
        }
    }

    /// The base URL of this cloud instance.
    pub fn as_ref(&self) -> (r: &str)
        ensures
            r@ == self.as_ref_spec(),
    {
        match self {
            AzureCloudInstance::AzurePublic => "https://login.microsoftonline.com",
            AzureCloudInstance::AzureChina => "https://login.chinacloudapi.cn",
            AzureCloudInstance::AzureGermany => "https://login.microsoftonline.de",
            AzureCloudInstance::AzureUsGovernment => "https://login.microsoftonline.us",
            AzureCloudInstance::OneDriveAndSharePoint => "https://login.live.com",
        }
    }
}

impl Default for AzureCloudInstance {
    /// The default cloud instance: the public cloud.
    fn default() -> (r: Self)
        ensures
            r == AzureCloudInstance::AzurePublic,
    {
        AzureCloudInstance::AzurePublic
    }
}

/// How the identity platform returns the requested token to the app.
#[derive(Debug, Copy, Clone, PartialEq, Eq, Structural)]
pub enum ResponseMode {
    Query,
    Fragment,
    FormPost,
}

impl ResponseMode {
    /// The wire value of this response mode, as a mathematical value.
    pub open spec fn as_ref_spec(self) -> Seq<char> {
        match self {
            ResponseMode::Query => "query"@,
            ResponseMode::Fragment => "fragment"@,
            ResponseMode::FormPost => "form_post"@,
        }
    }

    /// The wire value of this response mode.
    pub fn as_ref(&self) -> (r: &str)
        ensures
            r@ == self.as_ref_spec(),
    {
        match self {
            ResponseMode::Query => "query",
            ResponseMode::Fragment => "fragment",
            ResponseMode::FormPost => "form_post",
        }
    }
}

/// What the authorization endpoint is asked to return.
#[derive(Debug, Copy, Clone, PartialEq, Eq, Structural)]
pub enum ResponseType {
    Code,
    Token,
    IdToken,
}

impl ResponseType {
    /// The wire value of this response type, as a mathematical value.
    pub open spec fn as_ref_spec(self) -> Seq<char> {
        match self {
            ResponseType::Code => "code"@,
            ResponseType::Token => "token"@,
            ResponseType::IdToken => "id_token"@,
        }
    }

    /// The wire value of this response type.
    pub fn as_ref(&self) -> (r: &str)
        ensures
            r@ == self.as_ref_spec(),
    {
        match self {
            ResponseType::Code => "code",
            ResponseType::Token => "token",
            ResponseType::IdToken => "id_token",
        }
    }
}

/// The kind of user interaction the sign-in page demands. The wire value of
/// [`Prompt::NoInteraction`] is `none`.
#[derive(Debug, Copy, Clone, PartialEq, Eq, Structural)]
pub enum Prompt {
    Login,
    NoInteraction,
    Consent,
    SelectAccount,
}

impl Prompt {
    /// The wire value of this prompt, as a mathematical value.
    pub open spec fn as_ref_spec(self) -> Seq<char> {
        match self {
            Prompt::Login => "login"@,
            Prompt::NoInteraction => "none"@,
            Prompt::Consent => "consent"@,
            Prompt::SelectAccount => "select_account"@,
        }
    }

    /// The wire value of this prompt.
    pub fn as_ref(&self) -> (r: &str)
        ensures
            r@ == self.as_ref_spec(),
    {
        match self {
            Prompt::Login => "login",
            Prompt::NoInteraction => "none",
            Prompt::Consent => "consent",
            Prompt::SelectAccount => "select_account",
        }
    }
}

/// The wire values of a list of response types.
pub open spec fn response_type_strs(v: Seq<ResponseType>) -> Seq<Seq<char>> {
    v.map(|_i: int, t: ResponseType| t.as_ref_spec())
}

/// The space-joined query value of a list of response types.
pub open spec fn response_types_query(v: Seq<ResponseType>) -> Seq<char> {
    join_with(response_type_strs(v), " "@)
}

/// Joins response types into their space-delimited query value.
pub fn join_response_types(v: &Vec<ResponseType>) -> (r: String)
    ensures
        r@ == response_types_query(v@),
{
    let mut parts: Vec<String> = Vec::new();
    let mut i: usize = 0;
    while i < v.len()
        invariant
            i <= v@.len(),
            crate::text::str_views(parts@) =~= response_type_strs(v@.take(i as int)),
        decreases v@.len() - i,
    {
        let ghost prev = parts@;
        let elem = v[i];
        let item = elem.as_ref().to_owned();
        let ghost sv = item@;
        parts.push(item);
        proof {
            assert(sv == v@[i as int].as_ref_spec());
            assert(crate::text::str_views(prev).len() == prev.len());
            assert(response_type_strs(v@.take(i as int)).len() == i);
            assert(prev.len() == i);
            assert forall|j: int| 0 <= j < i + 1 implies crate::text::str_views(parts@)[j]
                == response_type_strs(v@.take(i + 1))[j] by {
                assert(v@.take(i + 1)[j] == v@[j]);
                if j < i {
                    assert(parts@[j] == prev[j]);
                    assert(crate::text::str_views(prev)[j] == response_type_strs(
                        v@.take(i as int),
                    )[j]);
                    assert(v@.take(i as int)[j] == v@[j]);
                } else {
                    assert(parts@[j] == item);
                }
            }
            assert(crate::text::str_views(parts@) =~= response_type_strs(v@.take(i + 1)));
        }
        i = i + 1;
    }
    proof {
        assert(v@.take(v@.len() as int) =~= v@);
    }
    let r = crate::encode::join_strings(&parts, " ");
    r
}

/// The wire values of a list of prompts.
pub open spec fn prompt_strs(v: Seq<Prompt>) -> Seq<Seq<char>> {
    v.map(|_i: int, t: Prompt| t.as_ref_spec())
}

/// The space-joined query value of a list of prompts.
pub open spec fn prompts_query(v: Seq<Prompt>) -> Seq<char> {
    join_with(prompt_strs(v), " "@)
}

/// Joins prompts into their space-delimited query value.
pub fn join_prompts(v: &Vec<Prompt>) -> (r: String)
    ensures
        r@ == prompts_query(v@),
{
    let mut parts: Vec<String> = Vec::new();
    let mut i: usize = 0;
    while i < v.len()
        invariant
            i <= v@.len(),
            crate::text::str_views(parts@) =~= prompt_strs(v@.take(i as int)),
        decreases v@.len() - i,
    {
        let ghost prev = parts@;
        let elem = v[i];
        let item = elem.as_ref().to_owned();
        let ghost sv = item@;
        parts.push(item);
        proof {
            assert(sv == v@[i as int].as_ref_spec());
            assert(crate::text::str_views(prev).len() == prev.len());
            assert(prompt_strs(v@.take(i as int)).len() == i);
            assert(prev.len() == i);
            assert forall|j: int| 0 <= j < i + 1 implies crate::text::str_views(parts@)[j]
                == prompt_strs(v@.take(i + 1))[j] by {
                assert(v@.take(i + 1)[j] == v@[j]);
                if j < i {
                    assert(parts@[j] == prev[j]);
                    assert(crate::text::str_views(prev)[j] == prompt_strs(v@.take(i as int))[j]);
                    assert(v@.take(i as int)[j] == v@[j]);
                } else {
                    assert(parts@[j] == item);
                }
            }
            assert(crate::text::str_views(parts@) =~= prompt_strs(v@.take(i + 1)));
        }
        i = i + 1;
    }
    proof {
        assert(v@.take(v@.len() as int) =~= v@);
    }
    let r = crate::encode::join_strings(&parts, " ");
    r
}

} // verus!
