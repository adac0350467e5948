//! The token envelope: the deserialized token response, its issuance
//! timestamp, and the derived expiry queries.
//!
//! Timestamps are Unix seconds. The issuance timestamp is captured when the
//! envelope is built, never taken from the wire; the expiry timestamp is the
//! issuance plus `expires_in`, recomputed whenever `expires_in` changes.

use vstd::prelude::*;
use vstd::string::StringExecFns;

use crate::capability::{
    json_member_i64, json_member_int, json_member_str, json_member_text, json_members,
    json_object_entries, now_unix,
};
use crate::error::AuthError;
use crate::id_token::IdToken;
use crate::text::{
    append_i64_dec, dec_int_val, i64_dec, is_dec_int, opt_secret_text, parse_i64, secret_text,
    split_char, split_string,
};

verus! {

/// The bound within which the clock capability reports Unix timestamps.
pub open spec fn clock_range(t: int) -> bool {
    -400_000_000_000 <= t <= 400_000_000_000
}

/// Addition on `i64` that stops at the edges instead of wrapping.
pub open spec fn sat_add_spec(a: int, b: int) -> int {
    if a + b > i64::MAX {
        i64::MAX as int
    } else if a + b < i64::MIN {
        i64::MIN as int
    } else {
        a + b
    }
}

/// Subtraction on `i64` that stops at the edges instead of wrapping.
pub open spec fn sat_sub_spec(a: int, b: int) -> int {
    sat_add_spec(a, -b)
}

/// Saturating addition.
fn sat_add(a: i64, b: i64) -> (r: i64)
    ensures
        r == sat_add_spec(a as int, b as int),
{
    if b >= 0 {
        if a > i64::MAX - b {
            i64::MAX
        } else {
            a + b
        }
    } else {
        if a < i64::MIN - b {
            i64::MIN
        } else {
            a + b
        }
    }
}

/// Saturating subtraction.
fn sat_sub(a: i64, b: i64) -> (r: i64)
    ensures
        r == sat_sub_spec(a as int, b as int),
{
    if b >= 0 {
        if a < i64::MIN + b {
            i64::MIN
        } else {
            a - b
        }
    } else {
        if a > i64::MAX + b {
            i64::MAX
        } else {
            a - b
        }
    }
}

/// A wire field that may arrive as a JSON number or as a numeric string.
#[derive(Debug, Clone, PartialEq, Eq)]
pub enum WireNumber {
    Num(i64),
    Text(String),
}

/// Whether a wire number denotes a value, i.e. is a number or a numeric
/// string whose value fits in an `i64`.
pub open spec fn wire_number_ok(w: WireNumber) -> bool {
    match w {
        WireNumber::Num(_) => true,
        WireNumber::Text(s) => is_dec_int(s@) && i64::MIN <= dec_int_val(s@) <= i64::MAX,
    }
}

/// The value a wire number denotes.
pub open spec fn wire_number_val(w: WireNumber) -> int {
    match w {
        WireNumber::Num(n) => n as int,
        WireNumber::Text(s) => dec_int_val(s@),
    }
}

/// The scope list carried by an optional space-delimited wire string.
pub open spec fn split_scope(scope: Option<Seq<char>>) -> Seq<Seq<char>> {
    match scope {
        Some(s) => split_char(s, ' '),
        None => Seq::empty(),
    }
}

/// A token response: the access token and what was issued beside it.
///
/// Equality disregards nothing: two envelopes are equal when every wire
/// field, both timestamps and the captured extra fields agree. There is no
/// std `Debug` rendering: it would print the secret token values, which
/// only [`MsalToken::debug_text`] may do, and then only behind PII opt-in.
#[derive(PartialEq, Eq)]
pub struct MsalToken {
    pub access_token: String,
    pub token_type: String,
    /// The advertised lifetime in seconds.
    pub expires_in: i64,
    /// Legacy companion of `expires_in`.
    pub ext_expires_in: Option<i64>,
    pub scope: Vec<String>,
    pub refresh_token: Option<String>,
    pub user_id: Option<String>,
    pub id_token: Option<String>,
    pub state: Option<String>,
    pub correlation_id: Option<String>,
    pub client_info: Option<String>,
    /// When this envelope was built, in Unix seconds.
    pub timestamp: Option<i64>,
    /// When the access token expires: issuance plus `expires_in`.
    pub expires_on: Option<i64>,
    /// Wire fields this library does not model, kept as JSON text.
    pub additional_fields: Vec<(String, String)>,
    /// Whether diagnostics may include the secret token values. Set this
    /// through [`MsalToken::enable_pii_logging`].
    pub log_pii: bool,
}

/// Whether two envelopes carry the same data: every field agrees, the
/// list-valued ones element for element.
pub open spec fn token_view_eq(a: MsalToken, b: MsalToken) -> bool {
    &&& a.access_token == b.access_token
    &&& a.token_type == b.token_type
    &&& a.expires_in == b.expires_in
    &&& a.ext_expires_in == b.ext_expires_in
    &&& a.scope@ == b.scope@
    &&& a.refresh_token == b.refresh_token
    &&& a.user_id == b.user_id
    &&& a.id_token == b.id_token
    &&& a.state == b.state
    &&& a.correlation_id == b.correlation_id
    &&& a.client_info == b.client_info
    &&& a.timestamp == b.timestamp
    &&& a.expires_on == b.expires_on
    &&& a.additional_fields@ == b.additional_fields@
    &&& a.log_pii == b.log_pii
}

impl Clone for MsalToken {
    /// A copy that carries the same data.
    fn clone(&self) -> (res: Self)
        ensures
            token_view_eq(res, *self),
    {
        MsalToken {
            access_token: self.access_token.clone(),
            token_type: self.token_type.clone(),
            expires_in: self.expires_in,
            ext_expires_in: self.ext_expires_in,
            scope: crate::text::clone_string_vec(&self.scope),
            refresh_token: crate::text::clone_opt_string(&self.refresh_token),
            user_id: crate::text::clone_opt_string(&self.user_id),
            id_token: crate::text::clone_opt_string(&self.id_token),
            state: crate::text::clone_opt_string(&self.state),
            correlation_id: crate::text::clone_opt_string(&self.correlation_id),
            client_info: crate::text::clone_opt_string(&self.client_info),
            timestamp: self.timestamp,
            expires_on: self.expires_on,
            additional_fields: crate::text::clone_pair_vec(&self.additional_fields),
            log_pii: self.log_pii,
        }
    }
}

impl MsalToken {
    /// Whether printing may include the secret token values.
    pub open spec fn pii_logging_enabled(self) -> bool {
        self.log_pii
    }

    /// The derived-expiry invariant: the expiry timestamp is the issuance
    /// timestamp plus the advertised lifetime, saturating at the edges.
    pub open spec fn expiry_consistent(self) -> bool {
        match (self.timestamp, self.expires_on) {
            (Some(t), Some(e)) => e == sat_add_spec(t as int, self.expires_in as int),
            (None, None) => true,
            _ => false,
        }
    }

    pub fn new(token_type: &str, expires_in: i64, access_token: &str, scope: Vec<String>) -> (r:
        MsalToken)
        ensures
            r.token_type@ == token_type@,
            r.expires_in == expires_in,
            r.access_token@ == access_token@,
            r.scope == scope,
            r.ext_expires_in is None,
            r.refresh_token is None,
            r.user_id is None,
            r.id_token is None,
            r.state is None,
            r.correlation_id is None,
            r.client_info is None,
            r.additional_fields@.len() == 0,
            r.timestamp matches Some(t) && clock_range(t as int),
            r.expiry_consistent(),
            !r.pii_logging_enabled(),
    {
        let timestamp = now_unix();
        let expires_on = sat_add(timestamp, expires_in);
        MsalToken {
            token_type: token_type.to_owned(),
            ext_expires_in: None,
            expires_in,
            scope,
            access_token: access_token.to_owned(),
            refresh_token: None,
            user_id: None,
            id_token: None,
            state: None,
            correlation_id: None,
            client_info: None,
            timestamp: Some(timestamp),
            expires_on: Some(expires_on),
            additional_fields: Vec::new(),
            log_pii: false,
        }
    }

    /// Sets the token type.
    pub fn with_token_type(&mut self, s: &str)
        ensures
            *final(self) == (MsalToken { token_type: final(self).token_type, ..*old(self) }),
            final(self).token_type@ == s@,
    {
        self.token_type = s.to_owned();
    }

    /// Sets the advertised lifetime and recomputes the issuance and expiry
    /// timestamps from the current time.
    pub fn with_expires_in(&mut self, expires_in: i64)
        ensures
            *final(self) == (MsalToken {
                expires_in: final(self).expires_in,
                timestamp: final(self).timestamp,
                expires_on: final(self).expires_on,
                ..*old(self)
            }),
            final(self).expires_in == expires_in,
            final(self).timestamp matches Some(t) && clock_range(t as int),
            final(self).expiry_consistent(),
    {
        self.expires_in = expires_in;
        let timestamp = now_unix();
        self.expires_on = Some(sat_add(timestamp, self.expires_in));
        self.timestamp = Some(timestamp);
    }

    /// Sets the scope list.
    pub fn with_scope(&mut self, scope: Vec<String>)
        ensures
            *final(self) == (MsalToken { scope: final(self).scope, ..*old(self) }),
            final(self).scope == scope,
    {
        self.scope = scope;
    }

    /// Sets the access token value.
    pub fn with_access_token(&mut self, s: &str)
        ensures
            *final(self) == (MsalToken { access_token: final(self).access_token, ..*old(self) }),
            final(self).access_token@ == s@,
    {
        self.access_token = s.to_owned();
    }

    /// Sets the refresh token value.
    pub fn with_refresh_token(&mut self, s: &str)
        ensures
            *final(self) == (MsalToken { refresh_token: final(self).refresh_token, ..*old(self) }),
            final(self).refresh_token matches Some(t) && t@ == s@,
    {
        self.refresh_token = Some(s.to_owned());
    }

    /// Sets the user id.
    pub fn with_user_id(&mut self, s: &str)
        ensures
            *final(self) == (MsalToken { user_id: final(self).user_id, ..*old(self) }),
            final(self).user_id matches Some(t) && t@ == s@,
    {
        self.user_id = Some(s.to_owned());
    }

    /// Sets the id token from its opaque string value.
    pub fn set_id_token(&mut self, s: &str)
        ensures
            *final(self) == (MsalToken { id_token: final(self).id_token, ..*old(self) }),
            final(self).id_token matches Some(t) && t@ == s@,
    {
        self.id_token = Some(s.to_owned());
    }

    /// Sets the id token from a parsed [`IdToken`].
    pub fn with_id_token(&mut self, id_token: IdToken)
        ensures
            *final(self) == (MsalToken { id_token: final(self).id_token, ..*old(self) }),
            final(self).id_token matches Some(t) && t@ == id_token.model().id_token,
    {
        self.id_token = Some(id_token.get_id_token());
    }

    /// Parses the stored id-token string, if any; the inner result obeys
    /// the id-token wire-parsing contract on that string.
    pub fn parse_id_token(&self) -> (r: Option<Result<IdToken, AuthError>>)
        ensures
            r is Some <==> self.id_token is Some,
            self.id_token matches Some(s) ==> (r matches Some(inner)
                && crate::id_token::id_token_parse_outcome(s@, inner)),
    {
        match &self.id_token {
            Some(s) => Some(IdToken::from_text(s.as_str())),
            None => None,
        }
    }

    /// Sets the state value.
    pub fn with_state(&mut self, s: &str)
        ensures
            *final(self) == (MsalToken { state: final(self).state, ..*old(self) }),
            final(self).state matches Some(t) && t@ == s@,
    {
        self.state = Some(s.to_owned());
    }

    /// Chooses whether diagnostics may include the secret token values.
    /// Disabled by default.
    pub fn enable_pii_logging(&mut self, log_pii: bool)
        ensures
            final(self).pii_logging_enabled() == log_pii,
            final(self).access_token == old(self).access_token,
            final(self).token_type == old(self).token_type,
            final(self).expires_in == old(self).expires_in,
            final(self).ext_expires_in == old(self).ext_expires_in,
            final(self).scope == old(self).scope,
            final(self).timestamp == old(self).timestamp,
            final(self).expires_on == old(self).expires_on,
            final(self).refresh_token == old(self).refresh_token,
            final(self).user_id == old(self).user_id,
            final(self).id_token == old(self).id_token,
            final(self).state == old(self).state,
            final(self).correlation_id == old(self).correlation_id,
            final(self).client_info == old(self).client_info,
            final(self).additional_fields == old(self).additional_fields,
    {
        self.log_pii = log_pii;
    }

    /// Recomputes the issuance timestamp from the current time and the
    /// expiry timestamp from it and `expires_in`.
    pub fn gen_timestamp(&mut self)
        ensures
            *final(self) == (MsalToken {
                timestamp: final(self).timestamp,
                expires_on: final(self).expires_on,
                ..*old(self)
            }),
            final(self).timestamp matches Some(t) && clock_range(t as int),
            final(self).expiry_consistent(),
    {
        let timestamp = now_unix();
        let expires_on = sat_add(timestamp, self.expires_in);
        self.timestamp = Some(timestamp);
        self.expires_on = Some(expires_on);
    }

    /// Whether the token is expired when the clock reads `now`: true exactly
    /// when an expiry timestamp exists and lies before `now`. Without an
    /// expiry timestamp a token never counts as expired.
    pub open spec fn is_expired_spec(self, now: int) -> bool {
        match self.expires_on {
            Some(e) => (e as int) < now,
            None => false,
        }
    }

    /// Whether the token is expired at the given Unix timestamp.
    pub fn is_expired_at(&self, now: i64) -> (r: bool)
        ensures
            r == self.is_expired_spec(now as int),
    {
        match self.expires_on {
            Some(e) => e < now,
            None => false,
        }
    }

    /// Whether the token is expired now. Without an expiry timestamp this is
    /// never true; an expiry beyond the clock's representable range can
    /// never have passed.
    pub fn is_expired(&self) -> (r: bool)
        ensures
            self.expires_on is None ==> r == false,
            self.expires_on matches Some(e) && e >= 400_000_000_000 ==> r == false,
            self.expires_on matches Some(e) && e < -400_000_000_000 ==> r == true,
            r == true ==> self.expires_on is Some,
    {
        let now = now_unix();
        self.is_expired_at(now)
    }

    /// The token's whole lifetime in seconds: expiry minus issuance, when
    /// both timestamps exist.
    pub fn elapsed(&self) -> (r: Option<i64>)
        ensures
            r == match (self.expires_on, self.timestamp) {
                (Some(e), Some(t)) => Some(sat_sub_spec(e as int, t as int) as i64),
                _ => Option::<i64>::None,
            },
    {
        match (self.expires_on, self.timestamp) {
            (Some(e), Some(t)) => Some(sat_sub(e, t)),
            _ => None,
        }
    }

    /// A rendering for diagnostics: exactly [`token_debug_text`], in which
    /// the access token, refresh token and id token stand behind a fixed
    /// placeholder unless PII logging was enabled.
    pub fn debug_text(&self) -> (r: String)
        ensures
            r@ == token_debug_text(*self),
    {
        let mut out = String::new();
        out.append("MsalToken { access_token: ");
        if self.log_pii {
            out.append(self.access_token.as_str());
        } else {
            out.append("[REDACTED]");
        }
        out.append(", refresh_token: ");
        match &self.refresh_token {
            Some(t) => {
                if self.log_pii {
                    out.append(t.as_str());
                } else {
                    out.append("[REDACTED]");
                }
            },
            None => out.append("(none)"),
        }
        out.append(", id_token: ");
        match &self.id_token {
            Some(t) => {
                if self.log_pii {
                    out.append(t.as_str());
                } else {
                    out.append("[REDACTED]");
                }
            },
            None => out.append("(none)"),
        }
        out.append(", token_type: ");
        out.append(self.token_type.as_str());
        out.append(", expires_in: ");
        append_i64_dec(&mut out, self.expires_in);
        out.append(" }");
        proof {
            assert(out@ =~= token_debug_text(*self));
        }
        out
    }
}

/// The diagnostic rendering of an envelope: every piece in a fixed order,
/// the three secret values rendered through [`secret_text`], so that they
/// appear only behind PII opt-in.
pub open spec fn token_debug_text(t: MsalToken) -> Seq<char> {
    "MsalToken { access_token: "@ + secret_text(t.access_token@, t.log_pii)
        + ", refresh_token: "@ + opt_secret_text(t.refresh_token.deep_view(), t.log_pii)
        + ", id_token: "@ + opt_secret_text(t.id_token.deep_view(), t.log_pii)
        + ", token_type: "@ + t.token_type@ + ", expires_in: "@ + i64_dec(t.expires_in as int)
        + " }"@
}

impl Default for MsalToken {
    /// An empty envelope: issuance now, expiry at the Unix epoch, every
    /// other field empty.
    fn default() -> (r: MsalToken)
        ensures
            r.access_token@.len() == 0,
            r.token_type@.len() == 0,
            r.expires_in == 0,
            r.ext_expires_in is None,
            r.scope@.len() == 0,
            r.refresh_token is None,
            r.user_id is None,
            r.id_token is None,
            r.state is None,
            r.correlation_id is None,
            r.client_info is None,
            r.timestamp matches Some(t) && clock_range(t as int),
            r.expires_on == Some(0i64),
            r.additional_fields@.len() == 0,
            !r.pii_logging_enabled(),
    {
        MsalToken {
            token_type: String::new(),
            expires_in: 0,
            ext_expires_in: None,
            scope: Vec::new(),
            access_token: String::new(),
            refresh_token: None,
            user_id: None,
            id_token: None,
            state: None,
            correlation_id: None,
            client_info: None,
            timestamp: Some(now_unix()),
            expires_on: Some(0),
            additional_fields: Vec::new(),
            log_pii: false,
        }
    }
}

/// Builds a token envelope from the plain values a wire payload carries.
///
/// This is the whole deserialization logic past the JSON reader: the
/// `expires_in` tolerance (number or numeric string), the space-delimited
/// scope list, and the capture of the issuance and expiry timestamps. It
/// fails exactly when `expires_in` denotes no `i64` value.
#[allow(clippy::too_many_arguments)]
pub fn token_from_parts(
    access_token: String,
    token_type: String,
    expires_in: WireNumber,
    ext_expires_in: Option<i64>,
    scope: Option<String>,
    refresh_token: Option<String>,
    user_id: Option<String>,
    id_token: Option<String>,
    state: Option<String>,
    correlation_id: Option<String>,
    client_info: Option<String>,
    additional_fields: Vec<(String, String)>,
    now: i64,
) -> (r: Result<MsalToken, AuthError>)
    ensures
        r is Ok <==> wire_number_ok(expires_in),
        r matches Ok(t) ==> {
            &&& t.access_token == access_token
            &&& t.token_type == token_type
            &&& t.expires_in as int == wire_number_val(expires_in)
            &&& t.ext_expires_in == ext_expires_in
            &&& t.scope@.map(|_i: int, p: String| p@) == split_scope(scope.deep_view())
            &&& t.refresh_token == refresh_token
            &&& t.user_id == user_id
            &&& t.id_token == id_token
            &&& t.state == state
            &&& t.correlation_id == correlation_id
            &&& t.client_info == client_info
            &&& t.timestamp == Some(now)
            &&& t.expires_on == Some(sat_add_spec(now as int, wire_number_val(expires_in)) as i64)
            &&& t.additional_fields == additional_fields
            &&& !t.pii_logging_enabled()
        },
{
    let expires_in_val: i64 = match &expires_in {
        WireNumber::Num(n) => *n,
        WireNumber::Text(s) => match parse_i64(s.as_str()) {
            Some(n) => n,
            None => {
                let mut reason = String::new();
                reason.append("`expires_in` is not an integer");
                return Err(AuthError::Deserialization { reason });
            },
        },
    };
    let scope_list: Vec<String> = match &scope {
        Some(s) => split_string(s.as_str(), ' '),
        None => Vec::new(),
    };
    proof {
        match scope {
            Some(s) => {
                assert(scope.deep_view() matches Some(v) && v == s@);
            },
            None => {
                assert(scope_list@.map(|_i: int, p: String| p@) =~~= Seq::<Seq<char>>::empty());
            },
        }
    }
    let expires_on = sat_add(now, expires_in_val);
    Ok(
        MsalToken {
            access_token,
            token_type,
            expires_in: expires_in_val,
            ext_expires_in,
            scope: scope_list,
            refresh_token,
            user_id,
            id_token,
            state,
            correlation_id,
            client_info,
            timestamp: Some(now),
            expires_on: Some(expires_on),
            additional_fields,
            log_pii: false,
        },
    )
}

impl MsalToken {
    /// Reads a token envelope from a JSON wire payload.
    ///
    /// The members are read through the JSON capability, keyed on the
    /// document text, and handed to [`token_from_parts`]. Success is owed
    /// exactly when `access_token` and `token_type` are string members and
    /// `expires_in` is an integer member or a decimal string member whose
    /// value fits in an `i64`; every field of the result then equals its
    /// member, the unmodelled members are kept as extra fields, and the
    /// issuance timestamp is taken from the clock, not the wire.
    pub fn from_json(s: &str) -> (r: Result<MsalToken, AuthError>)
        ensures
            r is Ok <==> json_token_ok(s@),
            r matches Ok(t) ==> {
                &&& Some(t.access_token@) == json_member_text(s@, "access_token"@)
                &&& Some(t.token_type@) == json_member_text(s@, "token_type"@)
                &&& t.expires_in as int == json_expires_val(s@)
                &&& t.ext_expires_in == json_member_int(s@, "ext_expires_in"@)
                &&& t.scope@.map(|_i: int, p: String| p@) == split_scope(
                    json_member_text(s@, "scope"@),
                )
                &&& t.refresh_token.deep_view() == json_member_text(s@, "refresh_token"@)
                &&& t.user_id.deep_view() == json_member_text(s@, "user_id"@)
                &&& t.id_token.deep_view() == json_member_text(s@, "id_token"@)
                &&& t.state.deep_view() == json_member_text(s@, "state"@)
                &&& t.correlation_id.deep_view() == json_member_text(s@, "correlation_id"@)
                &&& t.client_info.deep_view() == json_member_text(s@, "client_info"@)
                &&& crate::encode::pair_views(t.additional_fields@) == extra_members(
                    json_members(s@),
                )
                &&& t.timestamp matches Some(ts) && clock_range(ts as int)
                &&& t.expiry_consistent()
                &&& !t.pii_logging_enabled()
            },
    {
        proof {
            reveal_strlit("access_token");
            reveal_strlit("token_type");
            reveal_strlit("expires_in");
            reveal_strlit("ext_expires_in");
            reveal_strlit("scope");
            reveal_strlit("refresh_token");
            reveal_strlit("user_id");
            reveal_strlit("id_token");
            reveal_strlit("state");
            reveal_strlit("correlation_id");
            reveal_strlit("client_info");
        }
        let access_token = match json_member_str(s, "access_token") {
            Some(t) => t,
            None => {
                let mut reason = String::new();
                reason.append("`access_token` is missing or not a string");
                return Err(AuthError::Deserialization { reason });
            },
        };
        let token_type = match json_member_str(s, "token_type") {
            Some(t) => t,
            None => {
                let mut reason = String::new();
                reason.append("`token_type` is missing or not a string");
                return Err(AuthError::Deserialization { reason });
            },
        };
        let expires_in = match json_member_i64(s, "expires_in") {
            Some(n) => WireNumber::Num(n),
            None => match json_member_str(s, "expires_in") {
                Some(t) => WireNumber::Text(t),
                None => {
                    let mut reason = String::new();
                    reason.append("`expires_in` is missing, or neither a number nor a string");
                    return Err(AuthError::Deserialization { reason });
                },
            },
        };
        let ext_expires_in = json_member_i64(s, "ext_expires_in");
        let scope = json_member_str(s, "scope");
        let refresh_token = json_member_str(s, "refresh_token");
        let user_id = json_member_str(s, "user_id");
        let id_token = json_member_str(s, "id_token");
        let state = json_member_str(s, "state");
        let correlation_id = json_member_str(s, "correlation_id");
        let client_info = json_member_str(s, "client_info");
        let entries = json_object_entries(s);
        let ghost all_members = json_members(s@);
        let mut additional_fields: Vec<(String, String)> = Vec::new();
        let mut i: usize = 0;
        proof {
            assert(all_members.skip(0) =~= all_members);
            assert(crate::encode::pair_views(additional_fields@) =~= Seq::<
                (Seq<char>, Seq<char>),
            >::empty());
        }
        while i < entries.len()
            invariant
                i <= entries@.len(),
                crate::encode::pair_views(entries@) == all_members,
                extra_members(all_members) =~= crate::encode::pair_views(additional_fields@)
                    + extra_members(all_members.skip(i as int)),
            decreases entries@.len() - i,
        {
            let ghost rest = all_members.skip(i as int);
            let ghost pre = crate::encode::pair_views(additional_fields@);
            proof {
                assert(rest[0] == all_members[i as int]);
                assert(rest.skip(1) =~= all_members.skip(i + 1));
            }
            let entry = &entries[i];
            if !is_known_token_key(&entry.0) {
                additional_fields.push((entry.0.clone(), entry.1.clone()));
                proof {
                    assert(crate::encode::pair_views(additional_fields@) =~= pre.push(
                        rest[0],
                    ));
                    assert(pre.push(rest[0]) =~= pre + seq![rest[0]]);
                    assert(extra_members(all_members) =~= crate::encode::pair_views(
                        additional_fields@,
                    ) + extra_members(all_members.skip(i + 1)));
                }
            } else {
                proof {
                    assert(extra_members(rest) =~= extra_members(rest.skip(1)));
                }
            }
            i = i + 1;
        }
        proof {
            assert(all_members.skip(all_members.len() as int) =~= Seq::<
                (Seq<char>, Seq<char>),
            >::empty());
        }
        let r = token_from_parts(
            access_token,
            token_type,
            expires_in,
            ext_expires_in,
            scope,
            refresh_token,
            user_id,
            id_token,
            state,
            correlation_id,
            client_info,
            additional_fields,
            now_unix(),
        );
        proof {
            if r is Ok {
                assert(json_token_ok(s@));
            }
        }
        r
    }
}

/// Whether a JSON document denotes a token envelope: `access_token` and
/// `token_type` are string members and `expires_in` denotes an `i64`, as an
/// integer member or as a decimal string member.
pub open spec fn json_token_ok(s: Seq<char>) -> bool {
    &&& json_member_text(s, "access_token"@) is Some
    &&& json_member_text(s, "token_type"@) is Some
    &&& json_expires_ok(s)
}

/// Whether the `expires_in` member denotes an `i64`.
pub open spec fn json_expires_ok(s: Seq<char>) -> bool {
    ||| json_member_int(s, "expires_in"@) is Some
    ||| (json_member_text(s, "expires_in"@) matches Some(t) && is_dec_int(t) && i64::MIN
        <= dec_int_val(t) <= i64::MAX)
}

/// The value the `expires_in` member denotes: the integer member when it is
/// one, else the value of the decimal string member.
pub open spec fn json_expires_val(s: Seq<char>) -> int {
    match json_member_int(s, "expires_in"@) {
        Some(n) => n as int,
        None => dec_int_val(json_member_text(s, "expires_in"@).unwrap()),
    }
}

/// Whether a JSON member name is one the envelope models as its own field.
pub open spec fn known_token_key(k: Seq<char>) -> bool {
    ||| k == "access_token"@
    ||| k == "token_type"@
    ||| k == "expires_in"@
    ||| k == "ext_expires_in"@
    ||| k == "scope"@
    ||| k == "refresh_token"@
    ||| k == "user_id"@
    ||| k == "id_token"@
    ||| k == "state"@
    ||| k == "correlation_id"@
    ||| k == "client_info"@
}

/// The members of a document that the envelope does not model as its own
/// fields, in order.
pub open spec fn extra_members(ms: Seq<(Seq<char>, Seq<char>)>) -> Seq<(Seq<char>, Seq<char>)>
    decreases ms.len(),
{
    if ms.len() == 0 {
        Seq::empty()
    } else if known_token_key(ms[0].0) {
        extra_members(ms.skip(1))
    } else {
        seq![ms[0]] + extra_members(ms.skip(1))
    }
}

/// Whether a JSON member name is one the envelope models as its own field.
fn is_known_token_key(k: &String) -> (r: bool)
    ensures
        r == known_token_key(k@),
{
    crate::text::text_eq(k.as_str(), "access_token") || crate::text::text_eq(
        k.as_str(),
        "token_type",
    ) || crate::text::text_eq(k.as_str(), "expires_in") || crate::text::text_eq(
        k.as_str(),
        "ext_expires_in",
    ) || crate::text::text_eq(k.as_str(), "scope") || crate::text::text_eq(
        k.as_str(),
        "refresh_token",
    ) || crate::text::text_eq(k.as_str(), "user_id") || crate::text::text_eq(
        k.as_str(),
        "id_token",
    ) || crate::text::text_eq(k.as_str(), "state") || crate::text::text_eq(
        k.as_str(),
        "correlation_id",
    ) || crate::text::text_eq(k.as_str(), "client_info")
}

} // verus!
