//! Picking a file name out of a `content-disposition` header.
//!
//! The header is split at `;`; a `filename*=utf-8''` piece carries a
//! percent-encoded name, a trailing `filename=` piece a plain, possibly
//! quoted one. Fetching the file itself is no business of this library:
//! a caller hands the header text in and takes the name out.

use vstd::prelude::*;
use vstd::string::StringExecFns;
use vstd::utf8::encode_utf8;

use crate::capability::{utf8_decodable, utf8_to_string};
use crate::encode::{form_decode, percent_decode};
use crate::id_token::filter_nonempty;
use crate::text::split_string;

verus! {

/// Whether a text begins with a prefix.
pub open spec fn starts_with(s: Seq<char>, prefix: Seq<char>) -> bool {
    s.len() >= prefix.len() && s.take(prefix.len() as int) == prefix
}

/// A text with every double quote removed.
pub open spec fn strip_quotes(s: Seq<char>) -> Seq<char>
    decreases s.len(),
{
    if s.len() == 0 {
        Seq::empty()
    } else if s[0] == '"' {
        strip_quotes(s.skip(1))
    } else {
        seq![s[0]] + strip_quotes(s.skip(1))
    }
}

/// The index of the first header piece carrying an encoded file name, if
/// any piece does.
pub open spec fn encoded_name_piece(pieces: Seq<Seq<char>>) -> Option<int>
    decreases pieces.len(),
{
    if pieces.len() == 0 {
        None
    } else if starts_with(pieces[0], "filename*=utf-8''"@) {
        Some(0)
    } else {
        match encoded_name_piece(pieces.skip(1)) {
            Some(k) => Some(k + 1),
            None => None,
        }
    }
}

/// When the pieces before `i` carry no encoded name and piece `i` does,
/// piece `i` is the first that does.
proof fn lemma_encoded_name_at(pieces: Seq<Seq<char>>, i: int)
    requires
        0 <= i < pieces.len(),
        forall|k: int| 0 <= k < i ==> !starts_with(#[trigger] pieces[k], "filename*=utf-8''"@),
        starts_with(pieces[i], "filename*=utf-8''"@),
    ensures
        encoded_name_piece(pieces) == Some(i),
    decreases i,
{
    if i > 0 {
        assert(pieces.skip(1)[i - 1] == pieces[i]);
        assert forall|k: int|
            0 <= k < i - 1 implies !starts_with(
            #[trigger] pieces.skip(1)[k],
            "filename*=utf-8''"@,
        ) by {
            assert(pieces.skip(1)[k] == pieces[k + 1]);
        }
        lemma_encoded_name_at(pieces.skip(1), i - 1);
    }
}

/// When no piece carries an encoded name, there is no first one.
proof fn lemma_encoded_name_none(pieces: Seq<Seq<char>>)
    requires
        forall|k: int|
            0 <= k < pieces.len() ==> !starts_with(#[trigger] pieces[k], "filename*=utf-8''"@),
    ensures
        encoded_name_piece(pieces) is None,
    decreases pieces.len(),
{
    if pieces.len() > 0 {
        assert forall|k: int|
            0 <= k < pieces.skip(1).len() implies !starts_with(
            #[trigger] pieces.skip(1)[k],
            "filename*=utf-8''"@,
        ) by {
            assert(pieces.skip(1)[k] == pieces[k + 1]);
        }
        lemma_encoded_name_none(pieces.skip(1));
    }
}

/// Whether a string begins with a literal prefix.
fn text_starts_with(s: &String, prefix: &str) -> (r: bool)
    ensures
        r == starts_with(s@, prefix@),
{
    let n = s.unicode_len();
    let p = prefix.unicode_len();
    if n < p {
        return false;
    }
    let head = s.as_str().substring_char(0, p);
    let r = crate::text::text_eq(head, prefix);
    proof {
        assert(head@ == s@.subrange(0, p as int));
        assert(s@.take(p as int) == s@.subrange(0, p as int));
    }
    r
}

/// Removes every double quote from a string.
fn remove_quotes(s: &str) -> (r: String)
    ensures
        r@ == strip_quotes(s@),
{
    let n = s.unicode_len();
    let mut out = String::new();
    let mut i: usize = 0;
    proof {
        assert(s@.skip(0) =~= s@);
    }
    while i < n
        invariant
            i <= n,
            n == s@.len(),
            strip_quotes(s@) =~= out@ + strip_quotes(s@.skip(i as int)),
        decreases n - i,
    {
        let ghost rest = s@.skip(i as int);
        proof {
            assert(rest[0] == s@[i as int]);
            assert(rest.skip(1) =~= s@.skip(i + 1));
        }
        let c = s.get_char(i);
        if c != '"' {
            crate::capability::push_char(&mut out, c);
        }
        proof {
            assert(strip_quotes(s@) =~= out@ + strip_quotes(s@.skip(i + 1)));
        }
        i = i + 1;
    }
    proof {
        assert(s@.skip(n as int) =~= Seq::<char>::empty());
        assert(out@ + Seq::<char>::empty() =~= out@);
    }
    out
}

/// Picks the file name out of a `content-disposition` header.
///
/// The pieces between `;` are examined. The first piece opening with
/// `filename*=utf-8''` decides: its percent-decoded remainder is the name,
/// and a remainder that does not decode to valid UTF-8 means no name at
/// all — there is no falling back to a plain piece then. Without an
/// encoded-name piece, a last piece opening with `filename=` yields its
/// remainder with every double quote removed; otherwise there is no name.
pub fn parse_content_disposition(header: &str) -> (r: Option<String>)
    ensures
        ({
            let pieces = filter_nonempty(crate::text::split_char(header@, ';'));
            match encoded_name_piece(pieces) {
                Some(i) => {
                    let decoded = form_decode(
                        encode_utf8(pieces[i].skip("filename*=utf-8''"@.len() as int)),
                    );
                    &&& (r is Some <==> utf8_decodable(decoded))
                    &&& (r matches Some(name) ==> encode_utf8(name@) == decoded)
                },
                None => {
                    &&& (r is Some <==> pieces.len() > 0 && starts_with(
                        pieces[pieces.len() - 1],
                        "filename="@,
                    ))
                    &&& (r matches Some(name) ==> name@ == strip_quotes(
                        pieces[pieces.len() - 1].skip("filename="@.len() as int),
                    ))
                },
            }
        }),
{
    let raw = split_string(header, ';');
    let mut pieces: Vec<String> = Vec::new();
    let mut i: usize = 0;
    let ghost all = raw@.map(|_i: int, q: String| q@);
    proof {
        assert(all.skip(0) =~= all);
    }
    while i < raw.len()
        invariant
            i <= raw@.len(),
            all == raw@.map(|_i: int, q: String| q@),
            filter_nonempty(all) =~~= pieces@.map(|_i: int, q: String| q@) + filter_nonempty(
                all.skip(i as int),
            ),
        decreases raw@.len() - i,
    {
        let ghost rest = all.skip(i as int);
        let ghost pview = pieces@.map(|_i: int, q: String| q@);
        proof {
            assert(rest[0] == all[i as int]);
            assert(rest.skip(1) =~= all.skip(i + 1));
        }
        if raw[i].unicode_len() > 0 {
            pieces.push(raw[i].clone());
            proof {
                assert(filter_nonempty(rest) =~~= seq![rest[0]] + filter_nonempty(rest.skip(1)));
                assert(pieces@.map(|_i: int, q: String| q@) =~~= pview.push(all[i as int]));
                assert(pview.push(all[i as int]) + filter_nonempty(all.skip(i + 1)) =~~= pview + (
                seq![rest[0]] + filter_nonempty(rest.skip(1))));
            }
        } else {
            proof {
                assert(filter_nonempty(rest) =~~= filter_nonempty(rest.skip(1)));
            }
        }
        i = i + 1;
    }
    proof {
        assert(all.skip(all.len() as int) =~~= Seq::<Seq<char>>::empty());
        assert(filter_nonempty(all) =~~= pieces@.map(|_i: int, q: String| q@));
    }
    let ghost fpieces = pieces@.map(|_i: int, q: String| q@);
    let mut j: usize = 0;
    while j < pieces.len()
        invariant
            j <= pieces@.len(),
            fpieces == pieces@.map(|_i: int, q: String| q@),
            fpieces == filter_nonempty(crate::text::split_char(header@, ';')),
            forall|k: int|
                0 <= k < j ==> !starts_with(#[trigger] fpieces[k], "filename*=utf-8''"@),
        decreases pieces@.len() - j,
    {
        let piece = &pieces[j];
        if text_starts_with(piece, "filename*=utf-8''") {
            let plen = piece.unicode_len();
            proof {
                reveal_strlit("filename*=utf-8''");
                assert("filename*=utf-8''"@.len() == 17);
            }
            let tail = piece.as_str().substring_char(17, plen);
            proof {
                assert(tail@ =~= fpieces[j as int].skip(17));
            }
            let tail_bytes = tail.as_bytes_vec();
            let decoded = percent_decode(tail_bytes.as_slice());
            proof {
                lemma_encoded_name_at(fpieces, j as int);
            }
            match utf8_to_string(decoded) {
                Some(name) => {
                    return Some(name);
                },
                None => {
                    return None;
                },
            }
        }
        j = j + 1;
    }
    proof {
        lemma_encoded_name_none(fpieces);
    }
    if pieces.len() > 0 {
        let last = &pieces[pieces.len() - 1];
        if text_starts_with(last, "filename=") {
            let plen = last.unicode_len();
            proof {
                reveal_strlit("filename=");
                assert("filename="@.len() == 9);
            }
            let tail = last.as_str().substring_char(9, plen);
            proof {
                assert(tail@ =~= fpieces[fpieces.len() - 1].skip(9));
            }
            return Some(remove_quotes(tail));
        }
    }
    None
}

} // verus!
