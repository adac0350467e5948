//! The laws of the credential engine, stated and proved once against the
//! contracts of the store and the grant tables.

use vstd::prelude::*;

use crate::grants::{GrantRequest, GrantType};
use crate::params::{lemma_alias_injective, OAuthParameter};
use crate::serializer::{
    auth_url_missing, auth_url_ok, first_missing, pairs_present, updated, OAuthSerializer,
};
use crate::text::{i64_dec, lemma_i64_dec_reads_back};
use crate::token::{wire_number_ok, wire_number_val, MsalToken, WireNumber};

verus! {

/// The `alias=value` pairs of a field list, one pair per field.
pub open spec fn field_pairs(s: OAuthSerializer, fields: Seq<OAuthParameter>) -> Seq<
    (Seq<char>, Seq<char>),
> {
    fields.map(|_i: int, p: OAuthParameter| (p.alias_spec(), s.value_of(p)))
}

/// The fields of a list that are present, in order.
pub open spec fn present_of(s: OAuthSerializer, fields: Seq<OAuthParameter>) -> Seq<
    OAuthParameter,
>
    decreases fields.len(),
{
    if fields.len() == 0 {
        Seq::empty()
    } else if s.present(fields[0]) {
        seq![fields[0]] + present_of(s, fields.skip(1))
    } else {
        present_of(s, fields.skip(1))
    }
}

/// When every field is present, the present pairs are one per field.
proof fn lemma_pairs_present_all(s: OAuthSerializer, fields: Seq<OAuthParameter>)
    requires
        forall|j: int| 0 <= j < fields.len() ==> s.present(#[trigger] fields[j]),
    ensures
        pairs_present(s, fields) =~~= field_pairs(s, fields),
    decreases fields.len(),
{
    if fields.len() > 0 {
        assert forall|j: int| 0 <= j < fields.skip(1).len() implies s.present(
            #[trigger] fields.skip(1)[j],
        ) by {
            assert(fields.skip(1)[j] == fields[j + 1]);
        }
        lemma_pairs_present_all(s, fields.skip(1));
        assert(pairs_present(s, fields) =~~= seq![(fields[0].alias_spec(), s.value_of(fields[0]))]
            + pairs_present(s, fields.skip(1)));
    }
}

/// The present pairs of a list are one per present field, in order.
proof fn lemma_pairs_present_filter(s: OAuthSerializer, fields: Seq<OAuthParameter>)
    ensures
        pairs_present(s, fields) =~~= field_pairs(s, present_of(s, fields)),
    decreases fields.len(),
{
    if fields.len() > 0 {
        lemma_pairs_present_filter(s, fields.skip(1));
        if s.present(fields[0]) {
            assert(field_pairs(s, seq![fields[0]] + present_of(s, fields.skip(1))) =~~= seq![
                (fields[0].alias_spec(), s.value_of(fields[0])),
            ] + field_pairs(s, present_of(s, fields.skip(1))));
        }
    }
}

/// The present fields of a list are among the list, still without
/// duplicates.
proof fn lemma_present_of_props(s: OAuthSerializer, fields: Seq<OAuthParameter>)
    ensures
        forall|x: OAuthParameter| present_of(s, fields).contains(x) ==> fields.contains(x),
        fields.no_duplicates() ==> present_of(s, fields).no_duplicates(),
    decreases fields.len(),
{
    if fields.len() > 0 {
        lemma_present_of_props(s, fields.skip(1));
        assert forall|x: OAuthParameter| present_of(s, fields).contains(x) implies fields.contains(
            x,
        ) by {
            if x == fields[0] {
                assert(fields[0] == x);
                assert(fields.contains(x));
            } else {
                let po = present_of(s, fields);
                let k = choose|k: int| 0 <= k < po.len() && po[k] == x;
                assert(present_of(s, fields.skip(1)).contains(x)) by {
                    if s.present(fields[0]) {
                        assert(po =~~= seq![fields[0]] + present_of(s, fields.skip(1)));
                        if k == 0 {
                            assert(po[0] == fields[0]);
                        }
                        assert(present_of(s, fields.skip(1))[k - 1] == x);
                    } else {
                        assert(po == present_of(s, fields.skip(1)));
                    }
                };
                assert(fields.skip(1).contains(x));
                let k2 = choose|k2: int| 0 <= k2 < fields.skip(1).len() && fields.skip(1)[k2] == x;
                assert(fields.skip(1)[k2] == fields[k2 + 1]);
                assert(fields[k2 + 1] == x);
                assert(fields.contains(x));
            }
        }
        if fields.no_duplicates() {
            assert(fields.skip(1).no_duplicates()) by {
                assert forall|i: int, j: int|
                    0 <= i < j < fields.skip(1).len() implies fields.skip(1)[i] != fields.skip(
                    1,
                )[j] by {
                    assert(fields.skip(1)[i] == fields[i + 1]);
                    assert(fields.skip(1)[j] == fields[j + 1]);
                }
            };
            if s.present(fields[0]) {
                assert forall|i: int, j: int|
                    0 <= i < j < present_of(s, fields).len() implies present_of(s, fields)[i]
                    != present_of(s, fields)[j] by {
                    if i == 0 {
                        assert(present_of(s, fields)[j] == present_of(s, fields.skip(1))[j - 1]);
                        assert(present_of(s, fields.skip(1)).contains(
                            present_of(s, fields.skip(1))[j - 1],
                        ));
                        if fields[0] == present_of(s, fields.skip(1))[j - 1] {
                            assert(fields.skip(1).contains(fields[0]));
                            let k = choose|k: int|
                                0 <= k < fields.skip(1).len() && fields.skip(1)[k] == fields[0];
                            assert(fields[k + 1] == fields[0]);
                        }
                    } else {
                        assert(present_of(s, fields)[i] == present_of(s, fields.skip(1))[i - 1]);
                        assert(present_of(s, fields)[j] == present_of(s, fields.skip(1))[j - 1]);
                    }
                }
            }
        }
    }
}

/// The fields an authorization query may carry are pairwise distinct, for
/// every grant type.
proof fn lemma_auth_fields_distinct(g: GrantType)
    ensures
        (g.required_spec(GrantRequest::Authorization) + g.optional_spec(
            GrantRequest::Authorization,
        )).no_duplicates(),
{
    let fields = g.required_spec(GrantRequest::Authorization) + g.optional_spec(
        GrantRequest::Authorization,
    );
    assert forall|i: int, j: int| 0 <= i < j < fields.len() implies fields[i] != fields[j] by {
        match g {
            GrantType::TokenFlow => {},
            GrantType::CodeFlow => {},
            GrantType::AuthorizationCode => {},
            GrantType::Implicit => {},
            GrantType::DeviceCode => {},
            GrantType::OpenId => {},
            GrantType::ClientCredentials => {},
            GrantType::ResourceOwnerPasswordCredentials => {},
        }
    }
}

/// For every grant type whose authorization-phase required fields are all
/// present, the authorization query holds exactly the required fields, in
/// declared order, then exactly the optional fields that are set — and no
/// field name twice.
pub proof fn lemma_authorization_query_exact(s: OAuthSerializer, g: GrantType)
    requires
        s.wf(),
        forall|j: int|
            0 <= j < g.required_spec(GrantRequest::Authorization).len() ==> s.present(
                #[trigger] g.required_spec(GrantRequest::Authorization)[j],
            ),
    ensures
        pairs_present(s, g.required_spec(GrantRequest::Authorization)) + pairs_present(
            s,
            g.optional_spec(GrantRequest::Authorization),
        ) =~~= field_pairs(
            s,
            g.required_spec(GrantRequest::Authorization) + present_of(
                s,
                g.optional_spec(GrantRequest::Authorization),
            ),
        ),
        ({
            let pairs = pairs_present(s, g.required_spec(GrantRequest::Authorization))
                + pairs_present(s, g.optional_spec(GrantRequest::Authorization));
            forall|i: int, j: int| 0 <= i < j < pairs.len() ==> pairs[i].0 != pairs[j].0
        }),
{
    let req = g.required_spec(GrantRequest::Authorization);
    let opt = g.optional_spec(GrantRequest::Authorization);
    lemma_pairs_present_all(s, req);
    lemma_pairs_present_filter(s, opt);
    let chosen = req + present_of(s, opt);
    assert(field_pairs(s, req) + field_pairs(s, present_of(s, opt)) =~~= field_pairs(s, chosen));
    lemma_auth_fields_distinct(g);
    lemma_present_of_props(s, opt);
    assert forall|i: int, j: int| 0 <= i < j < chosen.len() implies chosen[i] != chosen[j] by {
        let all = req + opt;
        if i < req.len() && j < req.len() {
            assert(all[i] == chosen[i] && all[j] == chosen[j]);
        } else if i < req.len() {
            assert(chosen[j] == present_of(s, opt)[j - req.len()]);
            assert(present_of(s, opt).contains(chosen[j]));
            assert(opt.contains(chosen[j]));
            let k = choose|k: int| 0 <= k < opt.len() && opt[k] == chosen[j];
            assert(all[i] == chosen[i] && all[req.len() + k] == chosen[j]);
        } else {
            assert(present_of(s, opt).no_duplicates());
            assert(chosen[i] == present_of(s, opt)[i - req.len()]);
            assert(chosen[j] == present_of(s, opt)[j - req.len()]);
        }
    }
    let pairs = pairs_present(s, req) + pairs_present(s, opt);
    assert forall|i: int, j: int| 0 <= i < j < pairs.len() implies pairs[i].0 != pairs[j].0 by {
        assert(pairs[i].0 == chosen[i].alias_spec());
        assert(pairs[j].0 == chosen[j].alias_spec());
        if chosen[i].alias_spec() == chosen[j].alias_spec() {
            lemma_alias_injective(chosen[i], chosen[j]);
        }
    }
}

/// When a field list holds the scope parameter, the scope set is empty, and
/// everything else in the list is present, the scope parameter is the first
/// missing one.
proof fn lemma_first_missing_is_scope(s: OAuthSerializer, fields: Seq<OAuthParameter>)
    requires
        fields.contains(OAuthParameter::Scope),
        s.scope_list().len() == 0,
        forall|j: int|
            0 <= j < fields.len() && #[trigger] fields[j] != OAuthParameter::Scope ==> s.present(
                fields[j],
            ),
    ensures
        first_missing(s, fields) == Some(OAuthParameter::Scope),
    decreases fields.len(),
{
    let k = choose|k: int| 0 <= k < fields.len() && fields[k] == OAuthParameter::Scope;
    if fields[0] == OAuthParameter::Scope {
        assert(!s.present(fields[0]));
    } else {
        assert(s.present(fields[0]));
        assert(fields.skip(1).contains(OAuthParameter::Scope)) by {
            assert(fields.skip(1)[k - 1] == fields[k]);
        };
        assert forall|j: int|
            0 <= j < fields.skip(1).len() && #[trigger] fields.skip(1)[j]
                != OAuthParameter::Scope implies s.present(fields.skip(1)[j]) by {
            assert(fields.skip(1)[j] == fields[j + 1]);
        }
        lemma_first_missing_is_scope(s, fields.skip(1));
    }
}

/// For every grant type and phase that demand a scope, an empty scope set
/// is reported as the missing `scope` parameter — never encoded away —
/// provided every other required field is present. At the authorization
/// phase the URL is refused with exactly that alias.
pub proof fn lemma_empty_scope_rejected(s: OAuthSerializer, g: GrantType, rq: GrantRequest)
    requires
        s.wf(),
        g.required_spec(rq).contains(OAuthParameter::Scope),
        s.scope_list().len() == 0,
        forall|j: int|
            0 <= j < g.required_spec(rq).len() && #[trigger] g.required_spec(rq)[j]
                != OAuthParameter::Scope ==> s.present(g.required_spec(rq)[j]),
    ensures
        first_missing(s, g.required_spec(rq)) == Some(OAuthParameter::Scope),
        rq == GrantRequest::Authorization ==> !auth_url_ok(s, g) && auth_url_missing(s, g)
            == "scope"@,
{
    lemma_first_missing_is_scope(s, g.required_spec(rq));
}

/// A stored value reads back exactly, and later writes to other parameters
/// never disturb it: after setting `p` to `vp` and then `q` to `vq` with
/// `p != q`, the store holds exactly `vp` under `p` and `vq` under `q`.
pub proof fn lemma_store_round_trip(
    s0: OAuthSerializer,
    s1: OAuthSerializer,
    s2: OAuthSerializer,
    p: OAuthParameter,
    q: OAuthParameter,
    vp: Seq<char>,
    vq: Seq<char>,
)
    requires
        updated(s0, s1, p, vp),
        updated(s1, s2, q, vq),
        p != q,
    ensures
        s2.cred(p) == Some(vp),
        s2.cred(q) == Some(vq),
{
}

/// How one default-setting step changes the store: nothing when the
/// parameter was set, exactly one insertion when it was not. This is what
/// `entry_with` guarantees on success.
pub open spec fn entry_effect(
    a: OAuthSerializer,
    b: OAuthSerializer,
    p: OAuthParameter,
    v: Seq<char>,
) -> bool {
    match a.cred(p) {
        Some(_) => b == a,
        None => updated(a, b, p, v),
    }
}

/// Setting a default twice is setting it once: the second step, whatever
/// value it carries, changes nothing, and the stored value is the original
/// one where one was set, else the first default.
pub proof fn lemma_entry_with_idempotent(
    s0: OAuthSerializer,
    s1: OAuthSerializer,
    s2: OAuthSerializer,
    p: OAuthParameter,
    v1: Seq<char>,
    v2: Seq<char>,
)
    requires
        entry_effect(s0, s1, p, v1),
        entry_effect(s1, s2, p, v2),
    ensures
        s2 == s1,
        s1.cred(p) == (match s0.cred(p) {
            Some(x) => Some(x),
            None => Some(v1),
        }),
{
}

/// A token envelope with a consistent expiry and any remaining lifetime is
/// not expired at its own issuance, nor at any moment up to issuance plus
/// lifetime; one moment later it is expired. This holds of every envelope
/// the library builds, whose expiry is issuance plus `expires_in`.
pub proof fn lemma_token_lifetime(t: MsalToken)
    requires
        t.expiry_consistent(),
        t.timestamp is Some,
        t.expires_in >= 0,
        t.timestamp.unwrap() + t.expires_in <= i64::MAX,
    ensures
        forall|now: int|
            now <= t.timestamp.unwrap() + t.expires_in ==> !t.is_expired_spec(now),
        t.is_expired_spec(t.timestamp.unwrap() + t.expires_in + 1),
{
}

/// A lifetime that arrives as the decimal text of a number denotes exactly
/// that number: the wire tolerance for `expires_in` loses nothing.
pub proof fn lemma_wire_number_tolerance(n: i64, s: String)
    requires
        s@ == i64_dec(n as int),
    ensures
        wire_number_ok(WireNumber::Text(s)),
        wire_number_val(WireNumber::Text(s)) == wire_number_val(WireNumber::Num(n)),
{
    lemma_i64_dec_reads_back(n as int);
}

} // verus!
