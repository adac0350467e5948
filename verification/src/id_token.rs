//! The id-token value returned in an authorization redirect: the opaque JWT
//! string plus the code, state and session-state fields that ride along.
//!
//! The wire form is either a JSON object or a form-urlencoded fragment with
//! the same field names; both are accepted.

use vstd::prelude::*;
use vstd::string::StringExecFns;
use vstd::utf8::encode_utf8;

use crate::capability::{
    json_member_str, json_member_text, json_members, json_object_entries, utf8_decodable,
    utf8_to_string,
};
use crate::encode::{form_decode, percent_decode};
use crate::error::AuthError;
use crate::text::{opt_plain_text, secret_text, split_char, split_string};

verus! {

/// The mathematical shape of an [`IdToken`].
#[verifier::ext_equal]
pub ghost struct IdTokenModel {
    pub code: Option<Seq<char>>,
    pub id_token: Seq<char>,
    pub state: Option<Seq<char>>,
    pub session_state: Option<Seq<char>>,
    pub extra: Seq<(Seq<char>, Seq<char>)>,
}

/// An id token and the fields delivered beside it in a redirect response.
/// There is no std `Debug` rendering: it would print the id-token value,
/// which only [`IdToken::debug_text`] may do, and then only behind PII
/// opt-in.
#[derive(Clone, PartialEq, Eq)]
pub struct IdToken {
    code: Option<String>,
    id_token: String,
    state: Option<String>,
    session_state: Option<String>,
    additional_fields: Vec<(String, String)>,
    log_pii: bool,
}

impl IdToken {
    /// The mathematical value of this token.
    pub closed spec fn model(self) -> IdTokenModel {
        IdTokenModel {
            code: self.code.deep_view(),
            id_token: self.id_token@,
            state: self.state.deep_view(),
            session_state: self.session_state.deep_view(),
            extra: self.additional_fields@.map(|_i: int, p: (String, String)| (p.0@, p.1@)),
        }
    }

    /// An empty token: no fields set.
    pub open spec fn empty_model() -> IdTokenModel {
        IdTokenModel {
            code: None,
            id_token: Seq::empty(),
            state: None,
            session_state: None,
            extra: Seq::empty(),
        }
    }

    pub fn new(id_token: &str, code: &str, state: &str, session_state: &str) -> (r: IdToken)
        ensures
            r.model() == (IdTokenModel {
                code: Some(code@),
                id_token: id_token@,
                state: Some(state@),
                session_state: Some(session_state@),
                extra: Seq::empty(),
            }),
            !r.pii_logging_enabled(),
    {
        let r = IdToken {
            code: Some(code.to_owned()),
            id_token: id_token.to_owned(),
            state: Some(state.to_owned()),
            session_state: Some(session_state.to_owned()),
            additional_fields: Vec::new(),
            log_pii: false,
        };
        proof {
            assert(r.model().extra =~= Seq::<(Seq<char>, Seq<char>)>::empty());
        }
        r
    }

    /// Replaces the opaque id-token string.
    pub fn id_token(&mut self, id_token: &str)
        ensures
            final(self).model() == (IdTokenModel { id_token: id_token@, ..old(self).model() }),
            final(self).pii_logging_enabled() == old(self).pii_logging_enabled(),
    {
        self.id_token = id_token.to_owned();
    }

    /// Replaces the authorization code.
    pub fn code(&mut self, code: &str)
        ensures
            final(self).model() == (IdTokenModel { code: Some(code@), ..old(self).model() }),
            final(self).pii_logging_enabled() == old(self).pii_logging_enabled(),
    {
        self.code = Some(code.to_owned());
    }

    /// Replaces the state value.
    pub fn state(&mut self, state: &str)
        ensures
            final(self).model() == (IdTokenModel { state: Some(state@), ..old(self).model() }),
            final(self).pii_logging_enabled() == old(self).pii_logging_enabled(),
    {
        self.state = Some(state.to_owned());
    }

    /// Replaces the session-state value.
    pub fn session_state(&mut self, session_state: &str)
        ensures
            final(self).model() == (IdTokenModel {
                session_state: Some(session_state@),
                ..old(self).model()
            }),
            final(self).pii_logging_enabled() == old(self).pii_logging_enabled(),
    {
        self.session_state = Some(session_state.to_owned());
    }

    /// Whether printing may include the id-token value.
    pub closed spec fn pii_logging_enabled(self) -> bool {
        self.log_pii
    }

    /// Chooses whether diagnostics may include the id-token value.
    /// Disabled by default.
    pub fn enable_pii_logging(&mut self, log_pii: bool)
        ensures
            final(self).model() == old(self).model(),
            final(self).pii_logging_enabled() == log_pii,
    {
        self.log_pii = log_pii;
    }

    pub fn get_id_token(&self) -> (r: String)
        ensures
            r@ == self.model().id_token,
    {
        self.id_token.clone()
    }

    pub fn get_code(&self) -> (r: Option<String>)
        ensures
            r.deep_view() == self.model().code,
    {
        self.code.clone()
    }

    pub fn get_state(&self) -> (r: Option<String>)
        ensures
            r.deep_view() == self.model().state,
    {
        self.state.clone()
    }

    pub fn get_session_state(&self) -> (r: Option<String>)
        ensures
            r.deep_view() == self.model().session_state,
    {
        self.session_state.clone()
    }

    /// The fields captured beside the recognized ones.
    pub fn get_additional_fields(&self) -> (r: &Vec<(String, String)>)
        ensures
            r@.map(|_i: int, p: (String, String)| (p.0@, p.1@)) == self.model().extra,
    {
        &self.additional_fields
    }

    /// A rendering for diagnostics: exactly [`id_token_debug_text`], in
    /// which the id-token value stands behind a fixed placeholder unless
    /// PII logging was enabled.
    pub fn debug_text(&self) -> (r: String)
        ensures
            r@ == id_token_debug_text(self.model(), self.pii_logging_enabled()),
    {
        let mut out = String::new();
        out.append("IdToken { code: ");
        match &self.code {
            Some(c) => out.append(c.as_str()),
            None => out.append("(none)"),
        }
        out.append(", id_token: ");
        if self.log_pii {
            out.append(self.id_token.as_str());
        } else {
            out.append("[REDACTED]");
        }
        out.append(", session_state: ");
        match &self.session_state {
            Some(s) => out.append(s.as_str()),
            None => out.append("(none)"),
        }
        out.append(" }");
        proof {
            assert(out@ =~= id_token_debug_text(self.model(), self.pii_logging_enabled()));
        }
        out
    }
}

/// The diagnostic rendering of an id token: code and session state in the
/// clear, the id-token value rendered through [`secret_text`], so that it
/// appears only behind PII opt-in.
pub open spec fn id_token_debug_text(m: IdTokenModel, pii: bool) -> Seq<char> {
    "IdToken { code: "@ + opt_plain_text(m.code) + ", id_token: "@ + secret_text(m.id_token, pii)
        + ", session_state: "@ + opt_plain_text(m.session_state) + " }"@
}

/// How one decoded `key=value` pair updates an id-token model: the four
/// recognized keys set their field, anything else is kept as an extra field.
pub open spec fn apply_form_pair(m: IdTokenModel, key: Seq<char>, val: Seq<char>) -> IdTokenModel {
    if key == "code"@ {
        IdTokenModel { code: Some(val), ..m }
    } else if key == "id_token"@ {
        IdTokenModel { id_token: val, ..m }
    } else if key == "state"@ {
        IdTokenModel { state: Some(val), ..m }
    } else if key == "session_state"@ {
        IdTokenModel { session_state: Some(val), ..m }
    } else {
        IdTokenModel { extra: m.extra.push((key, val)), ..m }
    }
}

/// Folds decoded pairs over an id-token model, in order: a later pair for
/// the same key wins.
pub open spec fn fold_form_pairs(
    m: IdTokenModel,
    pairs: Seq<(Seq<char>, Seq<char>)>,
) -> IdTokenModel
    decreases pairs.len(),
{
    if pairs.len() == 0 {
        m
    } else {
        fold_form_pairs(apply_form_pair(m, pairs[0].0, pairs[0].1), pairs.skip(1))
    }
}

/// The pieces of a sequence that are not empty, in order.
pub open spec fn filter_nonempty(ps: Seq<Seq<char>>) -> Seq<Seq<char>>
    decreases ps.len(),
{
    if ps.len() == 0 {
        Seq::empty()
    } else if ps[0].len() > 0 {
        seq![ps[0]] + filter_nonempty(ps.skip(1))
    } else {
        filter_nonempty(ps.skip(1))
    }
}

/// The non-empty `&`-separated pieces of a form-urlencoded fragment.
pub open spec fn form_pieces(s: Seq<char>) -> Seq<Seq<char>> {
    filter_nonempty(split_char(s, '&'))
}

/// The key part of a form piece: the text before the first `=`, the whole
/// piece if it has none.
pub open spec fn piece_key(p: Seq<char>) -> Seq<char> {
    split_char(p, '=')[0]
}

/// The value part of a form piece: the text after the first `=`, empty if
/// the piece has none.
pub open spec fn piece_val(p: Seq<char>) -> Seq<char> {
    if split_char(p, '=').len() > 1 {
        p.skip(piece_key(p).len() as int + 1)
    } else {
        Seq::empty()
    }
}

/// Whether a text decodes, as form-urlencoded UTF-8 bytes, to a given text.
pub open spec fn decodes_to(coded: Seq<char>, plain: Seq<char>) -> bool {
    encode_utf8(plain) == form_decode(encode_utf8(coded))
}

/// Whether every piece of a fragment percent-decodes to valid UTF-8.
pub open spec fn form_all_decodable(s: Seq<char>) -> bool {
    forall|i: int|
        0 <= i < form_pieces(s).len() ==> utf8_decodable(
            form_decode(encode_utf8(piece_key(#[trigger] form_pieces(s)[i]))),
        ) && utf8_decodable(form_decode(encode_utf8(piece_val(form_pieces(s)[i]))))
}

/// Whether a model is the result of parsing a form-urlencoded fragment:
/// there are decoded texts for every piece whose fold yields the model.
pub open spec fn form_parse_ok(s: Seq<char>, m: IdTokenModel) -> bool {
    exists|pairs: Seq<(Seq<char>, Seq<char>)>|
        {
            &&& #[trigger] fold_form_pairs(IdToken::empty_model(), pairs) == m
            &&& pairs.len() == form_pieces(s).len()
            &&& forall|i: int| #![trigger pairs[i]]
                0 <= i < pairs.len() ==> decodes_to(piece_key(form_pieces(s)[i]), pairs[i].0)
                    && decodes_to(piece_val(form_pieces(s)[i]), pairs[i].1)
        }
}

/// Whether a wire text is taken as JSON rather than as a fragment.
pub open spec fn json_start(s: Seq<char>) -> bool {
    s.len() > 0 && s[0] == '{'
}

/// What reading an id token from its wire text guarantees: the JSON
/// outcome for text opening with `{`, the pinned fragment parse for
/// everything else, and never a token with PII logging enabled.
pub open spec fn id_token_parse_outcome(s: Seq<char>, r: Result<IdToken, AuthError>) -> bool {
    &&& (r matches Ok(t) ==> !t.pii_logging_enabled())
    &&& (json_start(s) ==> json_id_token_outcome(s, r))
    &&& (!json_start(s) ==> (r matches Ok(t) && form_parse_ok(s, t.model()) || r is Err
        && !form_all_decodable(s)))
}

impl IdToken {
    /// Splits one form piece at its first `=` and percent-decodes both
    /// halves. `None` means a half was not valid UTF-8 after decoding.
    fn decode_piece(p: &String) -> (r: Option<(String, String)>)
        ensures
            r matches Some(kv) ==> decodes_to(piece_key(p@), kv.0@) && decodes_to(
                piece_val(p@),
                kv.1@,
            ),
            utf8_decodable(form_decode(encode_utf8(piece_key(p@)))) && utf8_decodable(
                form_decode(encode_utf8(piece_val(p@))),
            ) ==> r is Some,
    {
        let halves = split_string(p.as_str(), '=');
        proof {
            crate::text::lemma_split_char_len(p@, '=');
            assert(halves@.map(|_i: int, q: String| q@)[0] == piece_key(p@));
        }
        let key_coded = &halves[0];
        let klen = key_coded.unicode_len();
        let plen = p.unicode_len();
        let val_coded: String = if halves.len() > 1 {
            proof {
                lemma_piece_key_bound(p@);
            }
            p.as_str().substring_char(klen + 1, plen).to_owned()
        } else {
            String::new()
        };
        proof {
            assert(halves.len() > 1 ==> p@.subrange(klen + 1, plen as int) =~= p@.skip(
                klen + 1,
            ));
            assert(val_coded@ == piece_val(p@));
        }
        let key_bytes = key_coded.as_str().as_bytes_vec();
        let key_plain = match utf8_to_string(percent_decode(key_bytes.as_slice())) {
            Some(k) => k,
            None => {
                return None;
            },
        };
        let val_bytes = val_coded.as_str().as_bytes_vec();
        let val_plain = match utf8_to_string(percent_decode(val_bytes.as_slice())) {
            Some(v) => v,
            None => {
                return None;
            },
        };
        Some((key_plain, val_plain))
    }

    /// Reads an id token from its wire text: a JSON object if the text opens
    /// with `{`, otherwise a form-urlencoded fragment.
    ///
    /// For the fragment form the result is pinned: the non-empty
    /// `&`-separated pieces, split at their first `=` and percent-decoded,
    /// are folded in order over an empty token, and a piece that does not
    /// decode to valid UTF-8 is the only error. For the JSON form the
    /// recognized members are read from whatever the JSON reader hands back;
    /// a missing `id_token` member or an unreadable document is an error.
    pub fn from_text(s: &str) -> (r: Result<IdToken, AuthError>)
        ensures
            id_token_parse_outcome(s@, r),
    {
        if s.unicode_len() > 0 && s.get_char(0) == '{' {
            return IdToken::from_json_text(s);
        }
        let pieces = split_string(s, '&');
        let ghost pview = pieces@.map(|_i: int, q: String| q@);
        let mut token = IdToken {
            code: None,
            id_token: String::new(),
            state: None,
            session_state: None,
            additional_fields: Vec::new(),
            log_pii: false,
        };
        let ghost mut gpairs: Seq<(Seq<char>, Seq<char>)> = Seq::empty();
        let ghost mut gdone: Seq<Seq<char>> = Seq::empty();
        let key_code = String::from_str("code");
        let key_id_token = String::from_str("id_token");
        let key_state = String::from_str("state");
        let key_session_state = String::from_str("session_state");
        let mut i: usize = 0;
        proof {
            assert(pview.skip(0) =~~= pview);
            assert(token.model() =~~= IdToken::empty_model());
            assert(form_pieces(s@) == filter_nonempty(pview));
        }
        while i < pieces.len()
            invariant
                !json_start(s@),
                i <= pieces@.len(),
                pview == pieces@.map(|_i: int, q: String| q@),
                filter_nonempty(pview) =~~= gdone + filter_nonempty(pview.skip(i as int)),
                gdone.len() == gpairs.len(),
                forall|j: int| #![trigger gpairs[j]]
                    0 <= j < gpairs.len() ==> decodes_to(piece_key(gdone[j]), gpairs[j].0)
                        && decodes_to(piece_val(gdone[j]), gpairs[j].1),
                token.model() == fold_form_pairs(IdToken::empty_model(), gpairs),
                !token.pii_logging_enabled(),
                key_code@ == "code"@,
                key_id_token@ == "id_token"@,
                key_state@ == "state"@,
                key_session_state@ == "session_state"@,
                form_pieces(s@) == filter_nonempty(pview),
            decreases pieces@.len() - i,
        {
            let ghost rest = pview.skip(i as int);
            proof {
                assert(rest[0] == pview[i as int]);
                assert(rest.skip(1) =~~= pview.skip(i + 1));
            }
            let piece = &pieces[i];
            if piece.unicode_len() > 0 {
                proof {
                    assert(filter_nonempty(rest) =~~= seq![rest[0]] + filter_nonempty(
                        rest.skip(1),
                    ));
                    assert(form_pieces(s@)[gdone.len() as int] == piece@) by {
                        assert(filter_nonempty(pview)[gdone.len() as int] == (seq![rest[0]]
                            + filter_nonempty(rest.skip(1)))[0]);
                    };
                }
                match IdToken::decode_piece(piece) {
                    Some((key, val)) => {
                        let ghost m0 = token.model();
                        let ghost kv = (key@, val@);
                        if key == key_code {
                            token.code = Some(val);
                        } else if key == key_id_token {
                            token.id_token = val;
                        } else if key == key_state {
                            token.state = Some(val);
                        } else if key == key_session_state {
                            token.session_state = Some(val);
                        } else {
                            token.additional_fields.push((key, val));
                        }
                        proof {
                            assert(token.model() =~~= apply_form_pair(m0, kv.0, kv.1));
                            lemma_fold_form_pairs_snoc(IdToken::empty_model(), gpairs, kv);
                            let ghost old_done = gdone;
                            let ghost old_pairs = gpairs;
                            gdone = gdone.push(piece@);
                            gpairs = gpairs.push(kv);
                            assert(gdone + filter_nonempty(pview.skip(i + 1)) =~~= filter_nonempty(
                                pview,
                            ));
                            assert forall|j: int| #![trigger gpairs[j]]
                                0 <= j < gpairs.len() implies decodes_to(
                                piece_key(gdone[j]),
                                gpairs[j].0,
                            ) && decodes_to(piece_val(gdone[j]), gpairs[j].1) by {
                                if j < old_pairs.len() {
                                    assert(gdone[j] == old_done[j]);
                                    assert(gpairs[j] == old_pairs[j]);
                                } else {
                                    assert(gdone[j] == piece@);
                                    assert(gpairs[j] == kv);
                                }
                            }
                        }
                    },
                    None => {
                        proof {
                            assert(!form_all_decodable(s@)) by {
                                assert(form_pieces(s@)[gdone.len() as int] == piece@);
                            };
                        }
                        let mut reason = String::new();
                        reason.append("a form-urlencoded piece is not valid UTF-8");
                        return Err(AuthError::Deserialization { reason });
                    },
                }
            } else {
                proof {
                    assert(filter_nonempty(rest) =~~= filter_nonempty(rest.skip(1)));
                }
            }
            i = i + 1;
        }
        proof {
            assert(pview.skip(pview.len() as int) =~~= Seq::<Seq<char>>::empty());
            assert(filter_nonempty(pview) =~~= gdone);
            assert(form_parse_ok(s@, token.model())) by {
                assert(fold_form_pairs(IdToken::empty_model(), gpairs) == token.model());
                assert(gpairs.len() == form_pieces(s@).len());
                assert(forall|j: int| #![trigger gpairs[j]]
                    0 <= j < gpairs.len() ==> decodes_to(piece_key(form_pieces(s@)[j]), gpairs[j].0)
                        && decodes_to(piece_val(form_pieces(s@)[j]), gpairs[j].1));
            }
        }
        Ok(token)
    }

    /// Reads an id token from a JSON object via the JSON capability, keyed
    /// on the document text; the `id_token` member is demanded, everything
    /// else is optional, and unrecognized members are kept as extra fields.
    fn from_json_text(s: &str) -> (r: Result<IdToken, AuthError>)
        ensures
            json_id_token_outcome(s@, r),
    {
        let id_token = match json_member_str(s, "id_token") {
            Some(t) => t,
            None => {
                let mut reason = String::new();
                reason.append("`id_token` is missing or not a string");
                return Err(AuthError::Deserialization { reason });
            },
        };
        let code = json_member_str(s, "code");
        let state = json_member_str(s, "state");
        let session_state = json_member_str(s, "session_state");
        let entries = json_object_entries(s);
        let ghost all_members = json_members(s@);
        let mut additional_fields: Vec<(String, String)> = Vec::new();
        let mut i: usize = 0;
        proof {
            assert(all_members.skip(0) =~= all_members);
            assert(crate::encode::pair_views(additional_fields@) =~= Seq::<
                (Seq<char>, Seq<char>),
            >::empty());
        }
        while i < entries.len()
            invariant
                i <= entries@.len(),
                crate::encode::pair_views(entries@) == all_members,
                id_extra_members(all_members) =~= crate::encode::pair_views(additional_fields@)
                    + id_extra_members(all_members.skip(i as int)),
            decreases entries@.len() - i,
        {
            let ghost rest = all_members.skip(i as int);
            let ghost pre = crate::encode::pair_views(additional_fields@);
            proof {
                assert(rest[0] == all_members[i as int]);
                assert(rest.skip(1) =~= all_members.skip(i + 1));
            }
            let entry = &entries[i];
            if !is_known_id_key(&entry.0) {
                additional_fields.push((entry.0.clone(), entry.1.clone()));
                proof {
                    assert(crate::encode::pair_views(additional_fields@) =~= pre.push(rest[0]));
                    assert(pre.push(rest[0]) =~= pre + seq![rest[0]]);
                    assert(id_extra_members(all_members) =~= crate::encode::pair_views(
                        additional_fields@,
                    ) + id_extra_members(all_members.skip(i + 1)));
                }
            } else {
                proof {
                    assert(id_extra_members(rest) =~= id_extra_members(rest.skip(1)));
                }
            }
            i = i + 1;
        }
        proof {
            assert(all_members.skip(all_members.len() as int) =~= Seq::<
                (Seq<char>, Seq<char>),
            >::empty());
        }
        let token = IdToken {
            code,
            id_token,
            state,
            session_state,
            additional_fields,
            log_pii: false,
        };
        proof {
            assert(token.model().extra =~~= id_extra_members(json_members(s@)));
        }
        Ok(token)
    }
}

/// What reading an id token from JSON guarantees: success exactly when the
/// document has a string `id_token` member; the recognized members become
/// the fields, the rest are kept as extra fields in order.
pub open spec fn json_id_token_outcome(s: Seq<char>, r: Result<IdToken, AuthError>) -> bool {
    &&& (r is Ok <==> json_member_text(s, "id_token"@) is Some)
    &&& (r matches Ok(t) ==> {
        &&& Some(t.model().id_token) == json_member_text(s, "id_token"@)
        &&& t.model().code == json_member_text(s, "code"@)
        &&& t.model().state == json_member_text(s, "state"@)
        &&& t.model().session_state == json_member_text(s, "session_state"@)
        &&& t.model().extra == id_extra_members(json_members(s))
        &&& !t.pii_logging_enabled()
    })
}

/// Whether a JSON member name is one the id token models as its own field.
pub open spec fn known_id_key(k: Seq<char>) -> bool {
    ||| k == "code"@
    ||| k == "id_token"@
    ||| k == "state"@
    ||| k == "session_state"@
}

/// The members of a document the id token does not model as its own
/// fields, in order.
pub open spec fn id_extra_members(ms: Seq<(Seq<char>, Seq<char>)>) -> Seq<(Seq<char>, Seq<char>)>
    decreases ms.len(),
{
    if ms.len() == 0 {
        Seq::empty()
    } else if known_id_key(ms[0].0) {
        id_extra_members(ms.skip(1))
    } else {
        seq![ms[0]] + id_extra_members(ms.skip(1))
    }
}

/// Whether a JSON member name is one the id token models as its own field.
fn is_known_id_key(k: &String) -> (r: bool)
    ensures
        r == known_id_key(k@),
{
    crate::text::text_eq(k.as_str(), "code") || crate::text::text_eq(k.as_str(), "id_token")
        || crate::text::text_eq(k.as_str(), "state") || crate::text::text_eq(
        k.as_str(),
        "session_state",
    )
}

/// Folding one more pair is applying it to the fold of the pairs before it.
proof fn lemma_fold_form_pairs_snoc(
    m: IdTokenModel,
    ps: Seq<(Seq<char>, Seq<char>)>,
    x: (Seq<char>, Seq<char>),
)
    ensures
        fold_form_pairs(m, ps.push(x)) == apply_form_pair(fold_form_pairs(m, ps), x.0, x.1),
    decreases ps.len(),
{
    if ps.len() == 0 {
        assert(ps.push(x)[0] == x);
        assert(ps.push(x).skip(1) =~~= Seq::<(Seq<char>, Seq<char>)>::empty());
        assert(fold_form_pairs(m, ps.push(x)) == fold_form_pairs(
            apply_form_pair(m, x.0, x.1),
            ps.push(x).skip(1),
        ));
        assert(fold_form_pairs(apply_form_pair(m, x.0, x.1), Seq::empty())
            == apply_form_pair(m, x.0, x.1));
    } else {
        assert(ps.push(x)[0] == ps[0]);
        assert(ps.push(x).skip(1) =~~= ps.skip(1).push(x));
        assert(fold_form_pairs(m, ps.push(x)) == fold_form_pairs(
            apply_form_pair(m, ps[0].0, ps[0].1),
            ps.skip(1).push(x),
        ));
        assert(fold_form_pairs(m, ps) == fold_form_pairs(
            apply_form_pair(m, ps[0].0, ps[0].1),
            ps.skip(1),
        ));
        lemma_fold_form_pairs_snoc(apply_form_pair(m, ps[0].0, ps[0].1), ps.skip(1), x);
    }
}

/// Proof helper: the key of a piece is never longer than the piece itself.
proof fn lemma_piece_key_bound(p: Seq<char>)
    ensures
        split_char(p, '=').len() > 1 ==> piece_key(p).len() + 1 <= p.len(),
        piece_key(p).len() <= p.len(),
    decreases p.len(),
{
    if p.len() > 0 {
        lemma_piece_key_bound(p.skip(1));
    }
}

} // verus!
