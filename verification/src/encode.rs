//! Percent-encoding and query rendering.
//!
//! Values are encoded with the `application/x-www-form-urlencoded` alphabet
//! (letters, digits, `*`, `-`, `.` and `_` pass through), except that a space
//! becomes `%20` rather than `+`, so that the same encoder serves both
//! authorization query strings and form bodies. Every other byte of the
//! UTF-8 representation becomes `%XX` with uppercase hex digits.

use vstd::prelude::*;
use vstd::string::StringExecFns;
use vstd::utf8::encode_utf8;

verus! {

/// Whether a byte passes through percent-encoding unchanged.
pub open spec fn is_unreserved(b: u8) -> bool {
    (48 <= b <= 57)  // '0'..='9'
    || (65 <= b <= 90)  // 'A'..='Z'
    || (97 <= b <= 122)  // 'a'..='z'
    || b == 42  // '*'
    || b == 45  // '-'
    || b == 46  // '.'
    || b == 95  // '_'
}

/// The uppercase hex digit for a value below 16, as an ASCII byte.
pub open spec fn hex_upper(n: u8) -> u8 {
    if n < 10 {
        (48 + n) as u8
    } else {
        (55 + n) as u8
    }
}

/// How one byte is percent-encoded.
pub open spec fn enc_byte(b: u8) -> Seq<u8> {
    if is_unreserved(b) {
        seq![b]
    } else {
        seq![37u8, hex_upper(b / 16), hex_upper(b % 16)]
    }
}

/// How a byte sequence is percent-encoded.
pub open spec fn enc_bytes(s: Seq<u8>) -> Seq<u8>
    decreases s.len(),
{
    if s.len() == 0 {
        seq![]
    } else {
        enc_bytes(s.drop_last()) + enc_byte(s.last())
    }
}

/// Concatenation keeps sequences of ASCII bytes ASCII.
proof fn lemma_concat_ascii(a: Seq<u8>, b: Seq<u8>)
    requires
        forall|i: int| 0 <= i < a.len() ==> a[i] < 128,
        forall|i: int| 0 <= i < b.len() ==> b[i] < 128,
    ensures
        forall|i: int| 0 <= i < (a + b).len() ==> (a + b)[i] < 128,
{
    assert forall|i: int| 0 <= i < (a + b).len() implies (a + b)[i] < 128 by {
        if i < a.len() {
            assert((a + b)[i] == a[i]);
        } else {
            assert((a + b)[i] == b[i - a.len()]);
        }
    }
}

/// Every byte of a percent-encoded sequence is ASCII.
pub proof fn lemma_enc_bytes_ascii(s: Seq<u8>)
    ensures
        forall|i: int| 0 <= i < enc_bytes(s).len() ==> enc_bytes(s)[i] < 128,
    decreases s.len(),
{
    if s.len() > 0 {
        lemma_enc_bytes_ascii(s.drop_last());
        lemma_concat_ascii(enc_bytes(s.drop_last()), enc_byte(s.last()));
    }
}

/// The view of a sequence of ASCII bytes as characters.
pub open spec fn chars_of(bs: Seq<u8>) -> Seq<char> {
    bs.map(|_i: int, b: u8| b as char)
}

/// The views of a sequence of string pairs.
pub open spec fn pair_views(ps: Seq<(String, String)>) -> Seq<(Seq<char>, Seq<char>)> {
    ps.map(|_i: int, p: (String, String)| (p.0@, p.1@))
}

/// Pair views distribute over concatenation.
pub proof fn lemma_pair_views_concat(a: Seq<(String, String)>, b: Seq<(String, String)>)
    ensures
        pair_views(a + b) =~= pair_views(a) + pair_views(b),
{
    assert forall|i: int| 0 <= i < (a + b).len() implies pair_views(a + b)[i] == (pair_views(a)
        + pair_views(b))[i] by {
        if i < a.len() {
            assert((a + b)[i] == a[i]);
        } else {
            assert((a + b)[i] == b[i - a.len()]);
        }
    }
}

/// One rendered `alias=value` pair: the alias and the value are both
/// percent-encoded and joined by `=`.
pub open spec fn render_pair(alias: Seq<char>, value: Seq<char>) -> Seq<u8> {
    enc_bytes(encode_utf8(alias)) + seq![61u8] + enc_bytes(encode_utf8(value))
}

/// A rendered query string or form body: the pairs in order, joined by `&`.
pub open spec fn render_query(pairs: Seq<(Seq<char>, Seq<char>)>) -> Seq<u8>
    decreases pairs.len(),
{
    if pairs.len() == 0 {
        seq![]
    } else if pairs.len() == 1 {
        render_pair(pairs[0].0, pairs[0].1)
    } else {
        render_query(pairs.drop_last()) + seq![38u8] + render_pair(
            pairs.last().0,
            pairs.last().1,
        )
    }
}

/// Every byte of a rendered query is ASCII.
pub proof fn lemma_render_query_ascii(pairs: Seq<(Seq<char>, Seq<char>)>)
    ensures
        forall|i: int| 0 <= i < render_query(pairs).len() ==> render_query(pairs)[i] < 128,
    decreases pairs.len(),
{
    if pairs.len() == 0 {
    } else if pairs.len() == 1 {
        lemma_enc_bytes_ascii(encode_utf8(pairs[0].0));
        lemma_enc_bytes_ascii(encode_utf8(pairs[0].1));
        lemma_concat_ascii(enc_bytes(encode_utf8(pairs[0].0)), seq![61u8]);
        lemma_concat_ascii(
            enc_bytes(encode_utf8(pairs[0].0)) + seq![61u8],
            enc_bytes(encode_utf8(pairs[0].1)),
        );
    } else {
        lemma_render_query_ascii(pairs.drop_last());
        lemma_enc_bytes_ascii(encode_utf8(pairs.last().0));
        lemma_enc_bytes_ascii(encode_utf8(pairs.last().1));
        lemma_concat_ascii(enc_bytes(encode_utf8(pairs.last().0)), seq![61u8]);
        lemma_concat_ascii(
            enc_bytes(encode_utf8(pairs.last().0)) + seq![61u8],
            enc_bytes(encode_utf8(pairs.last().1)),
        );
        lemma_concat_ascii(render_query(pairs.drop_last()), seq![38u8]);
        lemma_concat_ascii(
            render_query(pairs.drop_last()) + seq![38u8],
            render_pair(pairs.last().0, pairs.last().1),
        );
    }
}

/// The uppercase hex digit for a value below 16.
fn hex_digit(n: u8) -> (r: u8)
    requires
        n < 16,
    ensures
        r == hex_upper(n),
{
    if n < 10 {
        48 + n
    } else {
        55 + n
    }
}

/// Appends the percent-encoding of `s`'s UTF-8 bytes to `out`.
pub fn append_encoded(out: &mut Vec<u8>, s: &str)
    ensures
        final(out)@ == old(out)@ + enc_bytes(encode_utf8(s@)),
{
    let bytes = s.as_bytes();
    let ghost base = out@;
    let mut i: usize = 0;
    while i < bytes.len()
        invariant
            i <= bytes@.len(),
            bytes@ == encode_utf8(s@),
            out@ == base + enc_bytes(bytes@.take(i as int)),
        decreases bytes@.len() - i,
    {
        let b = bytes[i];
        if (48 <= b && b <= 57) || (65 <= b && b <= 90) || (97 <= b && b <= 122) || b == 42 || b
            == 45 || b == 46 || b == 95 {
            out.push(b);
        } else {
            out.push(37);
            out.push(hex_digit(b / 16));
            out.push(hex_digit(b % 16));
        }
        proof {
            assert(bytes@.take(i + 1).drop_last() =~= bytes@.take(i as int));
            assert(bytes@.take(i + 1).last() == bytes@[i as int]);
            assert(out@ =~= base + enc_bytes(bytes@.take(i + 1)));
        }
        i = i + 1;
    }
    proof {
        assert(bytes@.take(bytes@.len() as int) =~= bytes@);
    }
}

/// Renders `alias=value` pairs into a percent-encoded query or form body.
pub fn encode_pairs(pairs: &Vec<(String, String)>) -> (r: Vec<u8>)
    ensures
        r@ == render_query(pair_views(pairs@)),
{
    let ghost pview = pair_views(pairs@);
    let mut out: Vec<u8> = Vec::new();
    let mut i: usize = 0;
    while i < pairs.len()
        invariant
            i <= pairs@.len(),
            pview == pairs@.map(|_i: int, p: (String, String)| (p.0@, p.1@)),
            out@ == render_query(pview.take(i as int)),
        decreases pairs@.len() - i,
    {
        if i > 0 {
            out.push(38);
        }
        append_encoded(&mut out, pairs[i].0.as_str());
        out.push(61);
        append_encoded(&mut out, pairs[i].1.as_str());
        proof {
            assert(pview.take(i + 1).drop_last() =~= pview.take(i as int));
            assert(pview.take(i + 1).last() == pview[i as int]);
            assert(out@ =~= render_query(pview.take(i + 1)));
        }
        i = i + 1;
    }
    proof {
        assert(pview.take(pview.len() as int) =~= pview);
    }
    out
}

/// A rendered query holds only ASCII bytes, so it can be read back as text.
pub proof fn lemma_encode_pairs_ascii(pairs: Seq<(Seq<char>, Seq<char>)>)
    ensures
        forall|i: int| 0 <= i < render_query(pairs).len() ==> render_query(pairs)[i] < 128,
{
    lemma_render_query_ascii(pairs);
}

/// The value of an ASCII hex digit byte, if it is one.
pub open spec fn hex_val(b: u8) -> Option<u8> {
    if 48 <= b <= 57 {
        Some((b - 48) as u8)
    } else if 65 <= b <= 70 {
        Some((b - 55) as u8)
    } else if 97 <= b <= 102 {
        Some((b - 87) as u8)
    } else {
        None
    }
}

/// How a form-urlencoded byte sequence is decoded: `%XX` becomes the byte it
/// names, `+` becomes a space, a malformed `%` sequence passes through.
pub open spec fn form_decode(s: Seq<u8>) -> Seq<u8>
    decreases s.len(),
{
    if s.len() == 0 {
        seq![]
    } else if s[0] == 37 && s.len() >= 3 && hex_val(s[1]) is Some && hex_val(s[2]) is Some {
        seq![(16 * hex_val(s[1]).unwrap() + hex_val(s[2]).unwrap()) as u8] + form_decode(s.skip(3))
    } else if s[0] == 43 {
        seq![32u8] + form_decode(s.skip(1))
    } else {
        seq![s[0]] + form_decode(s.skip(1))
    }
}

/// The value of an ASCII hex digit byte, if it is one.
fn hex_value(b: u8) -> (r: Option<u8>)
    ensures
        r == hex_val(b),
{
    if 48 <= b && b <= 57 {
        Some(b - 48)
    } else if 65 <= b && b <= 70 {
        Some(b - 55)
    } else if 97 <= b && b <= 102 {
        Some(b - 87)
    } else {
        None
    }
}

/// Decodes a form-urlencoded byte sequence.
pub fn percent_decode(s: &[u8]) -> (r: Vec<u8>)
    ensures
        r@ == form_decode(s@),
{
    let mut out: Vec<u8> = Vec::new();
    let mut i: usize = 0;
    proof {
        assert(s@.skip(0) =~= s@);
    }
    while i < s.len()
        invariant
            i <= s@.len(),
            form_decode(s@) == out@ + form_decode(s@.skip(i as int)),
        decreases s@.len() - i,
    {
        let ghost rest = s@.skip(i as int);
        proof {
            assert(rest[0] == s@[i as int]);
        }
        if s[i] == 37 && s.len() >= 3 && i < s.len() - 2 {
            let h1 = hex_value(s[i + 1]);
            let h2 = hex_value(s[i + 2]);
            proof {
                assert(rest.len() >= 3);
                assert(rest[1] == s@[i + 1]);
                assert(rest[2] == s@[i + 2]);
            }
            match (h1, h2) {
                (Some(a), Some(b)) => {
                    out.push(16 * a + b);
                    proof {
                        assert(rest.skip(3) =~= s@.skip(i + 3));
                        assert(form_decode(rest) =~= seq![(16 * a + b) as u8] + form_decode(
                            s@.skip(i + 3),
                        ));
                    }
                    i = i + 3;
                },
                _ => {
                    out.push(s[i]);
                    proof {
                        assert(rest.skip(1) =~= s@.skip(i + 1));
                    }
                    i = i + 1;
                },
            }
        } else {
            let b = s[i];
            if b == 43 {
                out.push(32);
            } else {
                out.push(b);
            }
            proof {
                assert(rest.skip(1) =~= s@.skip(i + 1));
            }
            i = i + 1;
        }
    }
    proof {
        assert(s@.skip(s@.len() as int) =~= Seq::<u8>::empty());
    }
    out
}

/// Joining text pieces with a separator, e.g. scopes with a single space.
pub open spec fn join_with(parts: Seq<Seq<char>>, sep: Seq<char>) -> Seq<char>
    decreases parts.len(),
{
    if parts.len() == 0 {
        seq![]
    } else if parts.len() == 1 {
        parts[0]
    } else {
        join_with(parts.drop_last(), sep) + sep + parts.last()
    }
}

/// Joins strings with a separator.
pub fn join_strings(parts: &Vec<String>, sep: &str) -> (r: String)
    ensures
        r@ == join_with(parts@.map(|_i: int, s: String| s@), sep@),
{
    let ghost pview = parts@.map(|_i: int, s: String| s@);
    let mut out = String::new();
    let mut i: usize = 0;
    while i < parts.len()
        invariant
            i <= parts@.len(),
            pview == parts@.map(|_i: int, s: String| s@),
            out@ == join_with(pview.take(i as int), sep@),
        decreases parts@.len() - i,
    {
        if i > 0 {
            out.append(sep);
        }
        out.append(parts[i].as_str());
        proof {
            assert(pview.take(i + 1).drop_last() =~= pview.take(i as int));
            assert(pview.take(i + 1).last() == pview[i as int]);
            if i == 0 {
                assert(out@ =~= join_with(pview.take(i + 1), sep@));
            } else {
                assert(out@ =~= join_with(pview.take(i + 1), sep@));
            }
        }
        i = i + 1;
    }
    proof {
        assert(pview.take(pview.len() as int) =~= pview);
    }
    out
}

} // verus!
