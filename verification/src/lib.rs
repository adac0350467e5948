//! A verified model of OAuth 2.0 / OpenID Connect grant flows: per-grant-type
//! credential parameters, request-phase-aware validation, and encoding of
//! authorization URLs and token-request form bodies.

pub mod authorization_code_authorization_url;
pub mod authorization_code_credential;
pub mod capability;
pub mod download;
pub mod encode;
pub mod error;
pub mod grants;
pub mod id_token;
pub mod identity;
pub mod laws;
pub mod open_id_authorization_url;
pub mod params;
pub mod selector;
pub mod serializer;
pub mod text;
pub mod token;
pub mod token_flow_authorization_url;

pub use error::AuthError;
pub use grants::{GrantRequest, GrantType};
pub use id_token::IdToken;
pub use identity::{Authority, AzureCloudInstance, Prompt, ResponseMode, ResponseType};
pub use params::OAuthParameter;
pub use selector::{
    AccessTokenGrant, AccessTokenRequest, AsyncAccessTokenGrant, AsyncAccessTokenRequest,
    AsyncDeviceCodeGrant, AuthorizationRequest, DeviceCodeGrant, GrantSelector, ImplicitGrant,
};
pub use serializer::OAuthSerializer;
pub use token::MsalToken;

