//! The error taxonomy of the library.
//!
//! Transport failures are not modelled here: network calls live outside the
//! library, and their errors are wrapped by the caller.

use vstd::prelude::*;
use vstd::string::StringExecFns;

use crate::grants::{GrantRequest, GrantType};

verus! {

/// An error raised while configuring credentials, validating a grant
/// request, or reading a wire payload.
#[derive(Debug, Clone, PartialEq, Eq)]
pub enum AuthError {
    /// A URL-typed parameter was handed a value that does not parse as an
    /// absolute URL. Raised immediately at insertion time.
    InvalidUrl { alias: String },
    /// A parameter that the chosen grant type and phase require was absent
    /// at encode time. `hint` carries extra context where one value standing
    /// in for another is involved.
    RequiredParameterMissing { alias: String, hint: Option<String> },
    /// The grant type has no exchange for the requested phase.
    GrantNotSupported { grant: GrantType, request: GrantRequest },
    /// A token or id-token payload could not be read.
    Deserialization { reason: String },
    /// A capability this library delegates to (such as the secure random
    /// source behind PKCE generation) failed.
    CollaboratorFailure { reason: String },
}

impl AuthError {
    /// A missing-parameter error for the given alias, without extra context.
    pub fn required(alias: &str) -> (r: AuthError)
        ensures
            r matches AuthError::RequiredParameterMissing { alias: a, hint } && a@ == alias@
                && hint is None,
    {
        AuthError::RequiredParameterMissing { alias: alias.to_owned(), hint: None }
    }

    /// A short description of the error, usable in logs; never exposes a
    /// credential value.
    pub fn message(&self) -> String {
        match self {
            AuthError::InvalidUrl { alias } => {
                let mut m = String::new();
                m.append("invalid absolute URL for parameter `");
                m.append(alias.as_str());
                m.append("`");
                m
            },
            AuthError::RequiredParameterMissing { alias, hint } => {
                let mut m = String::new();
                m.append("missing required parameter `");
                m.append(alias.as_str());
                m.append("`");
                match hint {
                    Some(h) => {
                        m.append(": ");
                        m.append(h.as_str());
                    },
                    None => {},
                }
                m
            },
            AuthError::GrantNotSupported { grant: _, request: _ } => {
                let mut m = String::new();
                m.append(
                    "this grant type only supports browser-based authorization; there is no token endpoint exchange",
                );
                m
            },
            AuthError::Deserialization { reason } => {
                let mut m = String::new();
                m.append("malformed payload: ");
                m.append(reason.as_str());
                m
            },
            AuthError::CollaboratorFailure { reason } => {
                let mut m = String::new();
                m.append("a collaborator failed: ");
                m.append(reason.as_str());
                m
            },
        }
    }
}

} // verus!
