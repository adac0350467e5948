//! Small verified text utilities: decimal integer parsing (for wire fields
//! that may arrive as numeric strings) and splitting on a separator
//! character (for scope lists and form-encoded payloads).

use vstd::prelude::*;

use crate::capability::push_char;

verus! {

/// Whether a character is an ASCII decimal digit.
pub open spec fn is_digit(c: char) -> bool {
    '0' <= c && c <= '9'
}

/// The value of a digit string read in base 10. Meaningful only when every
/// character is a digit.
pub open spec fn digits_val(s: Seq<char>) -> int
    decreases s.len(),
{
    if s.len() == 0 {
        0
    } else {
        10 * digits_val(s.drop_last()) + (s.last() as int - 48)
    }
}

/// Whether every character of `s` is an ASCII decimal digit.
pub open spec fn all_digits(s: Seq<char>) -> bool {
    forall|i: int| 0 <= i < s.len() ==> is_digit(s[i])
}

/// Whether `s` is a decimal integer: digits, optionally preceded by `-`.
pub open spec fn is_dec_int(s: Seq<char>) -> bool {
    if s.len() > 0 && s[0] == '-' {
        s.len() >= 2 && all_digits(s.skip(1))
    } else {
        s.len() >= 1 && all_digits(s)
    }
}

/// The value of a decimal integer string. Meaningful only when
/// `is_dec_int(s)` holds.
pub open spec fn dec_int_val(s: Seq<char>) -> int {
    if s.len() > 0 && s[0] == '-' {
        -digits_val(s.skip(1))
    } else {
        digits_val(s)
    }
}

/// A digit string's value is never negative.
proof fn lemma_digits_val_nonneg(s: Seq<char>)
    requires
        all_digits(s),
    ensures
        digits_val(s) >= 0,
    decreases s.len(),
{
    if s.len() > 0 {
        assert(all_digits(s.drop_last()));
        lemma_digits_val_nonneg(s.drop_last());
    }
}

/// Extending a digit string never shrinks its value.
proof fn lemma_digits_val_prefix(s: Seq<char>, j: int)
    requires
        all_digits(s),
        0 <= j <= s.len(),
    ensures
        digits_val(s.take(j)) <= digits_val(s),
    decreases s.len() - j,
{
    if j < s.len() {
        assert(all_digits(s.take(j + 1)));
        assert(s.take(j + 1).drop_last() =~= s.take(j));
        lemma_digits_val_nonneg(s.take(j));
        lemma_digits_val_prefix(s, j + 1);
    } else {
        assert(s.take(j) =~= s);
    }
}

/// Parses a decimal integer, accepting exactly the strings that
/// [`is_dec_int`] describes and whose value fits in an `i64`.
pub fn parse_i64(s: &str) -> (r: Option<i64>)
    ensures
        r is Some <==> is_dec_int(s@) && i64::MIN <= dec_int_val(s@) <= i64::MAX,
        r matches Some(v) ==> v == dec_int_val(s@),
{
    let n = s.unicode_len();
    if n == 0 {
        return None;
    }
    let neg = s.get_char(0) == '-';
    let start: usize = if neg {
        1
    } else {
        0
    };
    if n == start {
        return None;
    }
    let ghost digs = if neg {
        s@.skip(1)
    } else {
        s@
    };
    let mut mag: u64 = 0;
    let mut i: usize = start;
    while i < n
        invariant
            start <= i <= n,
            1 <= n == s@.len(),
            start == if neg {
                1int
            } else {
                0int
            },
            neg <==> s@[0] == '-',
            digs == if neg {
                s@.skip(1)
            } else {
                s@
            },
            all_digits(digs.take(i - start)),
            mag == digits_val(digs.take(i - start)),
        decreases n - i,
    {
        let c = s.get_char(i);
        if !('0' <= c && c <= '9') {
            proof {
                assert(digs[i - start] == s@[i as int]);
                assert(!all_digits(digs));
            }
            return None;
        }
        let d: u64 = ((c as u32) - 48) as u64;
        if mag > (u64::MAX - d) / 10 {
            proof {
                assert(digs.take(i - start + 1).drop_last() =~= digs.take(i - start));
                assert(digs.take(i - start + 1).last() == digs[i - start]);
                assert(digits_val(digs.take(i - start + 1)) == 10 * mag + d);
                assert(10 * mag + d > u64::MAX) by {
                    assert(mag >= (u64::MAX - d) / 10 + 1);
                };
                if is_dec_int(s@) {
                    lemma_digits_val_prefix(digs, i - start + 1);
                    assert(digits_val(digs) > u64::MAX);
                    assert(!(i64::MIN <= dec_int_val(s@) <= i64::MAX)) by {
                        if neg {
                            assert(dec_int_val(s@) == -digits_val(digs));
                        } else {
                            assert(dec_int_val(s@) == digits_val(digs));
                        }
                    };
                }
            }
            return None;
        }
        mag = mag * 10 + d;
        proof {
            assert(digs.take(i - start + 1).drop_last() =~= digs.take(i - start));
            assert(digs.take(i - start + 1).last() == digs[i - start]);
            assert(digs[i - start] == s@[i as int]);
        }
        i = i + 1;
    }
    proof {
        assert(digs.take(n - start) =~= digs);
        assert(is_dec_int(s@));
    }
    if neg {
        if mag > 9223372036854775808u64 {
            return None;
        }
        if mag == 9223372036854775808u64 {
            Some(i64::MIN)
        } else {
            Some(-(mag as i64))
        }
    } else {
        if mag > i64::MAX as u64 {
            return None;
        }
        Some(mag as i64)
    }
}

/// Whether a character is ASCII whitespace.
pub open spec fn is_space(c: char) -> bool {
    c == ' ' || c == '\t' || c == '\n' || c == '\r'
}

/// Whether a text is empty or all ASCII whitespace.
pub open spec fn is_blank(s: Seq<char>) -> bool {
    forall|i: int| 0 <= i < s.len() ==> is_space(s[i])
}

/// Whether a string is empty or all ASCII whitespace.
pub fn text_is_blank(s: &str) -> (r: bool)
    ensures
        r == is_blank(s@),
{
    let n = s.unicode_len();
    let mut i: usize = 0;
    while i < n
        invariant
            i <= n,
            n == s@.len(),
            forall|j: int| 0 <= j < i ==> is_space(s@[j]),
        decreases n - i,
    {
        let c = s.get_char(i);
        if !(c == ' ' || c == '\t' || c == '\n' || c == '\r') {
            return false;
        }
        i = i + 1;
    }
    true
}

/// Whether two string slices hold the same text.
pub fn text_eq(a: &str, b: &str) -> (r: bool)
    ensures
        r == (a@ == b@),
{
    a.to_owned() == b.to_owned()
}

/// How a secret is rendered for diagnostics: the value itself only behind
/// PII opt-in, else a fixed placeholder.
pub open spec fn secret_text(v: Seq<char>, pii: bool) -> Seq<char> {
    if pii {
        v
    } else {
        "[REDACTED]"@
    }
}

/// How an optional secret is rendered for diagnostics.
pub open spec fn opt_secret_text(v: Option<Seq<char>>, pii: bool) -> Seq<char> {
    match v {
        Some(t) => secret_text(t, pii),
        None => "(none)"@,
    }
}

/// How an optional plain value is rendered for diagnostics.
pub open spec fn opt_plain_text(v: Option<Seq<char>>) -> Seq<char> {
    match v {
        Some(t) => t,
        None => "(none)"@,
    }
}

/// The views of a sequence of strings.
pub open spec fn str_views(s: Seq<String>) -> Seq<Seq<char>> {
    s.map(|_i: int, x: String| x@)
}

/// Copies a vector of strings, element for element.
pub fn clone_string_vec(v: &Vec<String>) -> (r: Vec<String>)
    ensures
        r@ == v@,
{
    let mut out: Vec<String> = Vec::new();
    let mut i: usize = 0;
    while i < v.len()
        invariant
            i <= v@.len(),
            out@ =~= v@.take(i as int),
        decreases v@.len() - i,
    {
        out.push(v[i].clone());
        proof {
            assert(out@ =~= v@.take(i + 1));
        }
        i = i + 1;
    }
    proof {
        assert(v@.take(v@.len() as int) =~= v@);
    }
    out
}

/// Copies an optional string.
pub fn clone_opt_string(v: &Option<String>) -> (r: Option<String>)
    ensures
        r == *v,
{
    match v {
        Some(s) => Some(s.clone()),
        None => None,
    }
}

/// Copies a vector of string pairs, element for element.
pub fn clone_pair_vec(v: &Vec<(String, String)>) -> (r: Vec<(String, String)>)
    ensures
        r@ == v@,
{
    let mut out: Vec<(String, String)> = Vec::new();
    let mut i: usize = 0;
    while i < v.len()
        invariant
            i <= v@.len(),
            out@ =~= v@.take(i as int),
        decreases v@.len() - i,
    {
        let e = &v[i];
        out.push((e.0.clone(), e.1.clone()));
        proof {
            assert(out@ =~= v@.take(i + 1));
        }
        i = i + 1;
    }
    proof {
        assert(v@.take(v@.len() as int) =~= v@);
    }
    out
}

/// Copies a vector of optional strings, element for element.
pub fn clone_opt_string_vec(v: &Vec<Option<String>>) -> (r: Vec<Option<String>>)
    ensures
        r@ == v@,
{
    let mut out: Vec<Option<String>> = Vec::new();
    let mut i: usize = 0;
    while i < v.len()
        invariant
            i <= v@.len(),
            out@ =~= v@.take(i as int),
        decreases v@.len() - i,
    {
        out.push(clone_opt_string(&v[i]));
        proof {
            assert(out@ =~= v@.take(i + 1));
        }
        i = i + 1;
    }
    proof {
        assert(v@.take(v@.len() as int) =~= v@);
    }
    out
}

/// The character for one decimal digit.
pub open spec fn digit_char_spec(d: int) -> char {
    if d == 0 {
        '0'
    } else if d == 1 {
        '1'
    } else if d == 2 {
        '2'
    } else if d == 3 {
        '3'
    } else if d == 4 {
        '4'
    } else if d == 5 {
        '5'
    } else if d == 6 {
        '6'
    } else if d == 7 {
        '7'
    } else if d == 8 {
        '8'
    } else {
        '9'
    }
}

/// The decimal rendering of a non-negative number.
pub open spec fn u64_dec(n: int) -> Seq<char>
    decreases n,
{
    if n < 10 {
        seq![digit_char_spec(n)]
    } else {
        u64_dec(n / 10).push(digit_char_spec(n % 10))
    }
}

/// The decimal rendering of an integer.
pub open spec fn i64_dec(n: int) -> Seq<char> {
    if n < 0 {
        seq!['-'] + u64_dec(-n)
    } else {
        u64_dec(n)
    }
}

/// The character for one decimal digit.
fn digit_char(d: u64) -> (c: char)
    requires
        d < 10,
    ensures
        c == digit_char_spec(d as int),
{
    match d {
        0 => '0',
        1 => '1',
        2 => '2',
        3 => '3',
        4 => '4',
        5 => '5',
        6 => '6',
        7 => '7',
        8 => '8',
        _ => '9',
    }
}

/// Appends the decimal rendering of `n` to `out`.
fn append_u64_dec(out: &mut String, n: u64)
    ensures
        final(out)@ == old(out)@ + u64_dec(n as int),
    decreases n,
{
    if n >= 10 {
        append_u64_dec(out, n / 10);
    }
    push_char(out, digit_char(n % 10));
    proof {
        if n >= 10 {
            assert(old(out)@ + u64_dec(n as int) =~= (old(out)@ + u64_dec(n as int / 10)).push(
                digit_char_spec(n as int % 10),
            ));
        } else {
            assert(old(out)@ + u64_dec(n as int) =~= old(out)@.push(digit_char_spec(n as int)));
        }
    }
}

/// Appends the decimal rendering of `n` to `out`.
pub fn append_i64_dec(out: &mut String, n: i64)
    ensures
        final(out)@ == old(out)@ + i64_dec(n as int),
{
    if n >= 0 {
        append_u64_dec(out, n as u64);
    } else {
        push_char(out, '-');
        let mag: u64 = ((-(n + 1)) as u64) + 1;
        append_u64_dec(out, mag);
        proof {
            assert(old(out)@ + i64_dec(n as int) =~= old(out)@.push('-') + u64_dec(mag as int));
        }
    }
}

/// The decimal rendering of a non-negative number is all digits and reads
/// back as the same value.
pub proof fn lemma_u64_dec_reads_back(n: int)
    requires
        0 <= n,
    ensures
        u64_dec(n).len() >= 1,
        all_digits(u64_dec(n)),
        digits_val(u64_dec(n)) == n,
        u64_dec(n)[0] != '-',
    decreases n,
{
    if n < 10 {
        assert(u64_dec(n) =~= seq![digit_char_spec(n)]);
        assert(is_digit(digit_char_spec(n)));
        assert(digit_char_spec(n) as int == 48 + n);
        assert(u64_dec(n).drop_last() =~= Seq::<char>::empty());
        assert(digits_val(u64_dec(n)) == n) by {
            assert(u64_dec(n).last() == digit_char_spec(n));
            assert(digits_val(Seq::<char>::empty()) == 0);
            assert(digits_val(u64_dec(n)) == 10 * digits_val(u64_dec(n).drop_last()) + (
            u64_dec(n).last() as int - 48));
        };
    } else {
        lemma_u64_dec_reads_back(n / 10);
        let head = u64_dec(n / 10);
        assert(u64_dec(n) == head.push(digit_char_spec(n % 10)));
        assert(head.push(digit_char_spec(n % 10)).drop_last() =~= head);
        assert(is_digit(digit_char_spec(n % 10)));
        assert(digit_char_spec(n % 10) as int == 48 + n % 10);
        assert forall|i: int| 0 <= i < u64_dec(n).len() implies is_digit(u64_dec(n)[i]) by {
            if i < head.len() {
                assert(u64_dec(n)[i] == head[i]);
            }
        }
        assert(digits_val(u64_dec(n)) == n) by {
            assert(u64_dec(n).last() == digit_char_spec(n % 10));
            assert(u64_dec(n).drop_last() == head);
            assert(digits_val(u64_dec(n)) == 10 * digits_val(u64_dec(n).drop_last()) + (
            u64_dec(n).last() as int - 48));
            assert(10 * (n / 10) + n % 10 == n);
        };
    }
}

/// The decimal rendering of an integer is a decimal integer string and
/// reads back as the same value.
pub proof fn lemma_i64_dec_reads_back(n: int)
    requires
        i64::MIN <= n <= i64::MAX,
    ensures
        is_dec_int(i64_dec(n)),
        dec_int_val(i64_dec(n)) == n,
{
    if n < 0 {
        lemma_u64_dec_reads_back(-n);
        let s = seq!['-'] + u64_dec(-n);
        assert(s[0] == '-');
        assert(s.skip(1) =~= u64_dec(-n));
        assert(s.len() >= 2);
    } else {
        lemma_u64_dec_reads_back(n);
        assert(i64_dec(n)[0] != '-');
    }
}

/// Splitting text at every occurrence of a separator character, keeping
/// empty pieces: the result always has one piece more than the text has
/// separators.
pub open spec fn split_char(s: Seq<char>, sep: char) -> Seq<Seq<char>>
    decreases s.len(),
{
    if s.len() == 0 {
        seq![Seq::<char>::empty()]
    } else if s[0] == sep {
        seq![Seq::<char>::empty()] + split_char(s.skip(1), sep)
    } else {
        let rest = split_char(s.skip(1), sep);
        seq![seq![s[0]] + rest[0]] + rest.skip(1)
    }
}

/// A split always yields at least one piece.
pub proof fn lemma_split_char_len(s: Seq<char>, sep: char)
    ensures
        split_char(s, sep).len() >= 1,
    decreases s.len(),
{
    if s.len() > 0 {
        lemma_split_char_len(s.skip(1), sep);
    }
}

/// The first piece of `pieces` extended on the left with `p`.
spec fn prepend_first(p: Seq<char>, pieces: Seq<Seq<char>>) -> Seq<Seq<char>> {
    seq![p + pieces[0]] + pieces.skip(1)
}

/// Splits a string at every occurrence of `sep`, keeping empty pieces.
pub fn split_string(s: &str, sep: char) -> (r: Vec<String>)
    ensures
        r@.map(|_i: int, p: String| p@) =~~= split_char(s@, sep),
{
    let n = s.unicode_len();
    let mut pieces: Vec<String> = Vec::new();
    let mut cur = String::new();
    let mut i: usize = 0;
    proof {
        assert(s@.skip(0) =~= s@);
        lemma_split_char_len(s@, sep);
        assert(prepend_first(cur@, split_char(s@, sep)) =~~= split_char(s@, sep));
    }
    while i < n
        invariant
            i <= n,
            n == s@.len(),
            split_char(s@, sep) =~~= pieces@.map(|_i: int, p: String| p@) + prepend_first(
                cur@,
                split_char(s@.skip(i as int), sep),
            ),
        decreases n - i,
    {
        let ghost rest = s@.skip(i as int);
        let ghost pview = pieces@.map(|_i: int, p: String| p@);
        let ghost cv = cur@;
        let ghost tail = split_char(s@.skip(i + 1), sep);
        proof {
            assert(rest[0] == s@[i as int]);
            assert(rest.skip(1) =~= s@.skip(i + 1));
            lemma_split_char_len(s@.skip(i + 1), sep);
        }
        let c = s.get_char(i);
        if c == sep {
            pieces.push(cur);
            cur = String::new();
            proof {
                assert(split_char(rest, sep) =~~= seq![Seq::<char>::empty()] + tail);
                assert(prepend_first(cv, split_char(rest, sep)) =~~= seq![cv] + tail) by {
                    assert(cv + Seq::<char>::empty() =~= cv);
                    assert((seq![Seq::<char>::empty()] + tail).skip(1) =~~= tail);
                };
                assert(pieces@.map(|_i: int, p: String| p@) =~~= pview.push(cv));
                assert(prepend_first(cur@, tail) =~~= tail) by {
                    assert(Seq::<char>::empty() + tail[0] =~= tail[0]);
                    assert(seq![tail[0]] + tail.skip(1) =~~= tail);
                };
                assert(pview.push(cv) + tail =~~= pview + (seq![cv] + tail));
            }
        } else {
            push_char(&mut cur, c);
            proof {
                assert(split_char(rest, sep) =~~= seq![seq![rest[0]] + tail[0]] + tail.skip(1));
                assert(prepend_first(cv, split_char(rest, sep)) =~~= prepend_first(cur@, tail))
                    by {
                    assert(cv + (seq![rest[0]] + tail[0]) =~= cur@ + tail[0]);
                    assert((seq![seq![rest[0]] + tail[0]] + tail.skip(1)).skip(1) =~~= tail.skip(
                        1,
                    ));
                };
            }
        }
        i = i + 1;
    }
    let ghost pview = pieces@.map(|_i: int, p: String| p@);
    let ghost cv = cur@;
    proof {
        assert(s@.skip(n as int) =~= Seq::<char>::empty());
        assert(prepend_first(cv, split_char(Seq::<char>::empty(), sep)) =~~= seq![cv]) by {
            assert(cv + Seq::<char>::empty() =~= cv);
            assert(seq![Seq::<char>::empty()].skip(1) =~~= Seq::<Seq<char>>::empty());
        };
    }
    pieces.push(cur);
    proof {
        assert(pieces@.map(|_i: int, p: String| p@) =~~= pview.push(cv));
        assert(pview + seq![cv] =~~= pview.push(cv));
    }
    pieces
}

} // verus!
