//! Character-level string utilities: decimal rendering and parsing,
//! splitting, trimming, joining, and the few Unicode classifications that
//! only the standard library can decide.

use vstd::prelude::*;

verus! {

/// What `str::to_lowercase` returns; the result depends on the characters
/// alone.
pub uninterp spec fn lower_of(s: Seq<char>) -> Seq<char>;

/// Whether `char::is_whitespace` holds of a character.
pub uninterp spec fn is_unicode_space(c: char) -> bool;

/// Whether `char::is_alphanumeric` holds of a character.
pub uninterp spec fn is_unicode_alphanumeric(c: char) -> bool;

/// The UTF-8 byte length of a string; a function of its characters alone.
pub uninterp spec fn utf8_len(s: Seq<char>) -> nat;

/// Relies on str::len: the UTF-8 byte length of the string.
#[verifier::external_body]
pub fn byte_len(s: &str) -> (r: usize)
    ensures
        r == utf8_len(s@),
{
    s.len()
}

/// Relies on str::to_lowercase: Unicode lowercase of every character,
/// a function of the input characters alone.
#[verifier::external_body]
pub fn lowercase(s: &str) -> (r: String)
    ensures
        r@ == lower_of(s@),
{
    s.to_lowercase()
}

/// Relies on char::is_whitespace: the White_Space property of the character.
#[verifier::external_body]
pub fn char_is_space(c: char) -> (r: bool)
    ensures
        r == is_unicode_space(c),
{
    c.is_whitespace()
}

/// Relies on char::is_alphanumeric: the alphanumeric classification of the
/// character.
#[verifier::external_body]
pub fn char_is_alphanumeric(c: char) -> (r: bool)
    ensures
        r == is_unicode_alphanumeric(c),
{
    c.is_alphanumeric()
}

/// Relies on str::chars: the characters of the string, in order.
#[verifier::external_body]
pub fn str_chars(s: &str) -> (r: Vec<char>)
    ensures
        r@ == s@,
{
    s.chars().collect()
}

/// Relies on String::from_iter over characters: the characters, in order,
/// as a string.
#[verifier::external_body]
pub fn chars_to_string(v: &Vec<char>) -> (r: String)
    ensures
        r@ == v@,
{
    v.iter().collect()
}

/// Tests a `String` against a string slice, character for character.
pub fn string_eq_str(s: &String, lit: &str) -> (r: bool)
    ensures
        r == (s@ == lit@),
{
    let l: String = lit.to_owned();
    *s == l
}

/// The character for one decimal digit.
pub open spec fn digit_char(d: int) -> char {
    if d == 0 {
        '0'
    } else if d == 1 {
        '1'
    } else if d == 2 {
        '2'
    } else if d == 3 {
        '3'
    } else if d == 4 {
        '4'
    } else if d == 5 {
        '5'
    } else if d == 6 {
        '6'
    } else if d == 7 {
        '7'
    } else if d == 8 {
        '8'
    } else {
        '9'
    }
}

/// The decimal rendering of a non-negative integer, without sign or
/// leading zeros (`0` renders as `"0"`).
pub open spec fn spec_decimal(n: int) -> Seq<char>
    decreases n,
{
    if n < 10 {
        seq![digit_char(n)]
    } else {
        spec_decimal(n / 10).push(digit_char(n % 10))
    }
}

fn push_digit_char(d: u64, out: &mut Vec<char>)
    requires
        d < 10,
    ensures
        final(out)@ == old(out)@.push(digit_char(d as int)),
{
    if d == 0 {
        out.push('0');
    } else if d == 1 {
        out.push('1');
    } else if d == 2 {
        out.push('2');
    } else if d == 3 {
        out.push('3');
    } else if d == 4 {
        out.push('4');
    } else if d == 5 {
        out.push('5');
    } else if d == 6 {
        out.push('6');
    } else if d == 7 {
        out.push('7');
    } else if d == 8 {
        out.push('8');
    } else {
        out.push('9');
    }
}

fn push_decimal(n: u64, out: &mut Vec<char>)
    ensures
        final(out)@ == old(out)@ + spec_decimal(n as int),
    decreases n,
{
    if n < 10 {
        push_digit_char(n, out);
        assert(out@ =~= old(out)@ + spec_decimal(n as int));
    } else {
        push_decimal(n / 10, out);
        push_digit_char(n % 10, out);
        assert(out@ =~= old(out)@ + spec_decimal(n as int));
    }
}

/// Renders an unsigned integer in decimal.
pub fn u64_to_string(n: u64) -> (r: String)
    ensures
        r@ == spec_decimal(n as int),
{
    let mut out: Vec<char> = Vec::new();
    push_decimal(n, &mut out);
    assert(out@ =~= spec_decimal(n as int));
    chars_to_string(&out)
}

/// Renders a `u32` in decimal.
pub fn u32_to_string(n: u32) -> (r: String)
    ensures
        r@ == spec_decimal(n as int),
{
    u64_to_string(n as u64)
}

/// Renders a `usize` in decimal.
pub fn usize_to_string(n: usize) -> (r: String)
    ensures
        r@ == spec_decimal(n as int),
{
    u64_to_string(n as u64)
}

/// Whether a character is a decimal digit.
pub open spec fn is_digit_char(c: char) -> bool {
    '0' <= c && c <= '9'
}

/// The value of one decimal digit character.
pub open spec fn digit_value(c: char) -> int {
    c as int - '0' as int
}

/// The value of a sequence of decimal digit characters.
pub open spec fn spec_decimal_value(s: Seq<char>) -> int
    decreases s.len(),
{
    if s.len() == 0 {
        0
    } else {
        spec_decimal_value(s.drop_last()) * 10 + digit_value(s.last())
    }
}

/// Whether every character of the sequence is a decimal digit.
pub open spec fn all_digits(s: Seq<char>) -> bool {
    forall|i: int| 0 <= i < s.len() ==> is_digit_char(#[trigger] s[i])
}

/// Parses a non-empty, all-digit string as a `u64`.
/// Returns `None` when the string is empty, holds a non-digit, or the value
/// does not fit in a `u64`.
pub fn parse_u64(s: &str) -> (r: Option<u64>)
    ensures
        r is Some <==> s@.len() > 0 && all_digits(s@) && spec_decimal_value(s@) <= u64::MAX,
        r is Some ==> r->0 == spec_decimal_value(s@),
{
    let chars = str_chars(s);
    if chars.len() == 0 {
        return None;
    }
    let mut acc: u64 = 0;
    let mut i: usize = 0;
    while i < chars.len()
        invariant
            0 <= i <= chars@.len(),
            chars@ == s@,
            all_digits(s@.take(i as int)),
            acc == spec_decimal_value(s@.take(i as int)),
        decreases chars@.len() - i,
    {
        let c = chars[i];
        if !(c >= '0' && c <= '9') {
            assert(!is_digit_char(s@[i as int]));
            return None;
        }
        let d: u64 = (c as u32 as u64) - ('0' as u32 as u64);
        assert(d == digit_value(s@[i as int]));
        if acc > (u64::MAX - d) / 10 {
            proof {
                assert(s@.take(i + 1 as int).drop_last() =~= s@.take(i as int));
                assert(acc * 10 + d > u64::MAX) by (nonlinear_arith)
                    requires
                        acc > (u64::MAX - d) / 10,
                        d < 10,
                ;
                assert(spec_decimal_value(s@.take(i + 1 as int)) > u64::MAX);
                if all_digits(s@) {
                    lemma_decimal_value_grows(s@, i as int);
                }
            }
            return None;
        }
        acc = acc * 10 + d;
        assert(s@.take(i + 1 as int).drop_last() =~= s@.take(i as int));
        i = i + 1;
    }
    assert(s@.take(chars@.len() as int) =~= s@);
    Some(acc)
}

/// If a digit string's prefix of length `i + 1` already exceeds `u64::MAX`,
/// the whole string's value does too.
proof fn lemma_decimal_value_grows(s: Seq<char>, i: int)
    requires
        0 <= i < s.len(),
        all_digits(s),
        spec_decimal_value(s.take(i + 1)) > u64::MAX,
    ensures
        spec_decimal_value(s) > u64::MAX,
    decreases s.len() - i,
{
    if i + 1 == s.len() {
        assert(s.take(i + 1) =~= s);
    } else {
        assert(s.take(i + 2).drop_last() =~= s.take(i + 1));
        assert(spec_decimal_value(s.take(i + 2)) == spec_decimal_value(s.take(i + 1)) * 10
            + digit_value(s[i + 1]));
        assert(digit_value(s[i + 1]) >= 0);
        assert(spec_decimal_value(s.take(i + 2)) > u64::MAX);
        lemma_decimal_value_grows(s, i + 1);
    }
}

/// Splits a character sequence on separators, keeping empty segments; the
/// empty input yields one empty segment.
pub open spec fn split_by(s: Seq<char>, sep: spec_fn(char) -> bool) -> Seq<Seq<char>>
    decreases s.len(),
{
    if s.len() == 0 {
        seq![Seq::<char>::empty()]
    } else {
        let prev = split_by(s.drop_last(), sep);
        if sep(s.last()) {
            prev.push(Seq::<char>::empty())
        } else {
            prev.update(prev.len() - 1, prev.last().push(s.last()))
        }
    }
}

/// Splits the characters of `chars` wherever `is_sep` answers true,
/// keeping empty segments.
pub(crate) fn split_chars(chars: &Vec<char>, is_sep: impl Fn(&char) -> bool, Ghost(sep): Ghost<spec_fn(char) -> bool>) -> (r: Vec<Vec<char>>)
    requires
        forall|c: char| #[trigger] is_sep.requires((&c,)),
        forall|c: char, b: bool| is_sep.ensures((&c,), b) ==> b == sep(c),
    ensures
        r@.map_values(|t: Vec<char>| t@) == split_by(chars@, sep),
{
    let mut parts: Vec<Vec<char>> = Vec::new();
    parts.push(Vec::new());
    proof {
        assert(parts@.map_values(|t: Vec<char>| t@) =~= split_by(chars@.take(0), sep));
    }
    let mut i: usize = 0;
    while i < chars.len()
        invariant
            0 <= i <= chars@.len(),
            parts@.len() > 0,
            parts@.map_values(|t: Vec<char>| t@) == split_by(chars@.take(i as int), sep),
            forall|c: char| #[trigger] is_sep.requires((&c,)),
            forall|c: char, b: bool| is_sep.ensures((&c,), b) ==> b == sep(c),
        decreases chars@.len() - i,
    {
        let c = chars[i];
        proof {
            assert(chars@.take(i + 1 as int).drop_last() =~= chars@.take(i as int));
            assert(chars@.take(i + 1 as int).last() == chars@[i as int]);
        }
        if is_sep(&c) {
            parts.push(Vec::new());
            proof {
                assert(parts@.map_values(|t: Vec<char>| t@) =~= split_by(chars@.take(i + 1 as int), sep));
            }
        } else {
            let last_idx = parts.len() - 1;
            let mut last = parts.remove(last_idx);
            last.push(c);
            parts.push(last);
            proof {
                assert(parts@.map_values(|t: Vec<char>| t@) =~= split_by(chars@.take(i + 1 as int), sep));
            }
        }
        i = i + 1;
    }
    proof {
        assert(chars@.take(chars@.len() as int) =~= chars@);
    }
    parts
}

/// The sequence without leading Unicode whitespace.
pub open spec fn trim_start_ws(s: Seq<char>) -> Seq<char>
    decreases s.len(),
{
    if s.len() > 0 && is_unicode_space(s.first()) {
        trim_start_ws(s.drop_first())
    } else {
        s
    }
}

/// The sequence without trailing Unicode whitespace.
pub open spec fn trim_end_ws(s: Seq<char>) -> Seq<char>
    decreases s.len(),
{
    if s.len() > 0 && is_unicode_space(s.last()) {
        trim_end_ws(s.drop_last())
    } else {
        s
    }
}

/// The sequence without leading and trailing Unicode whitespace, as
/// `str::trim` leaves it.
pub open spec fn spec_trim(s: Seq<char>) -> Seq<char> {
    trim_end_ws(trim_start_ws(s))
}

/// Removes leading and trailing Unicode whitespace.
pub fn trim_chars(v: &Vec<char>) -> (r: Vec<char>)
    ensures
        r@ == spec_trim(v@),
{
    proof {
        assert(v@.skip(0) =~= v@);
    }
    let mut start: usize = 0;
    while start < v.len() && char_is_space(v[start])
        invariant
            0 <= start <= v@.len(),
            trim_start_ws(v@) == trim_start_ws(v@.skip(start as int)),
        decreases v@.len() - start,
    {
        proof {
            assert(v@.skip(start as int).first() == v@[start as int]);
            assert(v@.skip(start as int).drop_first() =~= v@.skip(start + 1 as int));
        }
        start = start + 1;
    }
    proof {
        if start < v@.len() {
            assert(v@.skip(start as int).first() == v@[start as int]);
        }
        assert(trim_start_ws(v@) == v@.skip(start as int));
        assert(v@.subrange(start as int, v@.len() as int) =~= v@.skip(start as int));
    }
    let mut end: usize = v.len();
    while end > start && char_is_space(v[end - 1])
        invariant
            start <= end <= v@.len(),
            trim_start_ws(v@) == v@.skip(start as int),
            trim_end_ws(v@.skip(start as int)) == trim_end_ws(v@.subrange(start as int, end as int)),
        decreases end,
    {
        proof {
            assert(v@.subrange(start as int, end as int).last() == v@[end - 1 as int]);
            assert(v@.subrange(start as int, end as int).drop_last() =~= v@.subrange(
                start as int,
                end - 1 as int,
            ));
        }
        end = end - 1;
    }
    proof {
        if end > start {
            assert(v@.subrange(start as int, end as int).last() == v@[end - 1 as int]);
        }
        assert(trim_end_ws(v@.subrange(start as int, end as int)) == v@.subrange(
            start as int,
            end as int,
        ));
    }
    let mut out: Vec<char> = Vec::new();
    let mut i: usize = start;
    while i < end
        invariant
            start <= i <= end <= v@.len(),
            out@ == v@.subrange(start as int, i as int),
        decreases end - i,
    {
        out.push(v[i]);
        proof {
            assert(out@ =~= v@.subrange(start as int, i + 1 as int));
        }
        i = i + 1;
    }
    out
}

/// The segments joined with `sep` between them; empty input joins to the
/// empty sequence.
pub open spec fn join_with(parts: Seq<Seq<char>>, sep: Seq<char>) -> Seq<char>
    decreases parts.len(),
{
    if parts.len() == 0 {
        Seq::<char>::empty()
    } else if parts.len() == 1 {
        parts[0]
    } else {
        join_with(parts.drop_last(), sep) + sep + parts.last()
    }
}

/// Joins segments with a separator string between them.
pub fn join_chars(parts: &Vec<Vec<char>>, sep: &Vec<char>) -> (r: Vec<char>)
    ensures
        r@ == join_with(parts@.map_values(|t: Vec<char>| t@), sep@),
{
    let ghost m = parts@.map_values(|t: Vec<char>| t@);
    let mut out: Vec<char> = Vec::new();
    let mut i: usize = 0;
    while i < parts.len()
        invariant
            0 <= i <= parts@.len(),
            m == parts@.map_values(|t: Vec<char>| t@),
            out@ == join_with(m.take(i as int), sep@),
        decreases parts@.len() - i,
    {
        if i > 0 {
            let mut j: usize = 0;
            while j < sep.len()
                invariant
                    0 <= j <= sep@.len(),
                    out@ == join_with(m.take(i as int), sep@) + sep@.take(j as int),
                decreases sep@.len() - j,
            {
                out.push(sep[j]);
                proof {
                    assert(out@ =~= join_with(m.take(i as int), sep@) + sep@.take(j + 1 as int));
                }
                j = j + 1;
            }
            proof {
                assert(sep@.take(sep@.len() as int) =~= sep@);
            }
        }
        let part = &parts[i];
        let mut j: usize = 0;
        while j < part.len()
            invariant
                0 <= j <= part@.len(),
                part@ == m[i as int],
                i < m.len(),
                out@ == if i == 0 {
                    m[i as int].take(j as int)
                } else {
                    join_with(m.take(i as int), sep@) + sep@ + m[i as int].take(j as int)
                },
            decreases part@.len() - j,
        {
            out.push(part[j]);
            proof {
                assert(m[i as int].take(j + 1 as int) =~= m[i as int].take(j as int).push(part@[j as int]));
            }
            j = j + 1;
        }
        proof {
            assert(m[i as int].take(m[i as int].len() as int) =~= m[i as int]);
            assert(m.take(i + 1 as int).drop_last() =~= m.take(i as int));
            assert(m.take(i + 1 as int).last() == m[i as int]);
            if i == 0 {
                assert(out@ =~= join_with(m.take(1), sep@));
            } else {
                assert(out@ =~= join_with(m.take(i + 1 as int), sep@));
            }
        }
        i = i + 1;
    }
    proof {
        assert(m.take(m.len() as int) =~= m);
    }
    out
}

/// The tokens, each trimmed, with empty results removed.
pub open spec fn spec_clean_tokens(parts: Seq<Seq<char>>) -> Seq<Seq<char>>
    decreases parts.len(),
{
    if parts.len() == 0 {
        Seq::<Seq<char>>::empty()
    } else {
        let prev = spec_clean_tokens(parts.drop_last());
        let t = spec_trim(parts.last());
        if t.len() == 0 {
            prev
        } else {
            prev.push(t)
        }
    }
}

/// The tokens, each trimmed, all kept.
pub open spec fn spec_trimmed_tokens(parts: Seq<Seq<char>>) -> Seq<Seq<char>>
    decreases parts.len(),
{
    if parts.len() == 0 {
        Seq::<Seq<char>>::empty()
    } else {
        spec_trimmed_tokens(parts.drop_last()).push(spec_trim(parts.last()))
    }
}

/// Trims every token and drops the ones trimming leaves empty.
pub(crate) fn clean_tokens(parts: &Vec<Vec<char>>) -> (r: Vec<Vec<char>>)
    ensures
        r@.map_values(|t: Vec<char>| t@) == spec_clean_tokens(parts@.map_values(|t: Vec<char>| t@)),
{
    let ghost pv = parts@.map_values(|t: Vec<char>| t@);
    let mut out: Vec<Vec<char>> = Vec::new();
    let mut i: usize = 0;
    let n = parts.len();
    proof {
        assert(out@.map_values(|t: Vec<char>| t@) =~= spec_clean_tokens(pv.take(0)));
    }
    while i < n
        invariant
            0 <= i <= pv.len(),
            n == pv.len(),
            pv == parts@.map_values(|t: Vec<char>| t@),
            out@.map_values(|t: Vec<char>| t@) == spec_clean_tokens(pv.take(i as int)),
        decreases n - i,
    {
        proof {
            assert(pv.take(i + 1 as int).drop_last() =~= pv.take(i as int));
            assert(pv.take(i + 1 as int).last() == pv[i as int]);
        }
        let trimmed = trim_chars(&parts[i]);
        if trimmed.len() > 0 {
            out.push(trimmed);
        }
        proof {
            assert(out@.map_values(|t: Vec<char>| t@) =~= spec_clean_tokens(pv.take(i + 1 as int)));
        }
        i = i + 1;
    }
    proof {
        assert(pv.take(n as int) =~= pv);
    }
    out
}

/// Trims every token and renders each as a string.
pub(crate) fn trimmed_token_strings(parts: &Vec<Vec<char>>) -> (r: Vec<String>)
    ensures
        r@.map_values(|s: String| s@) == spec_trimmed_tokens(
            parts@.map_values(|t: Vec<char>| t@),
        ),
{
    let ghost pv = parts@.map_values(|t: Vec<char>| t@);
    let mut out: Vec<String> = Vec::new();
    let mut i: usize = 0;
    let n = parts.len();
    proof {
        assert(out@.map_values(|s: String| s@) =~= spec_trimmed_tokens(pv.take(0)));
    }
    while i < n
        invariant
            0 <= i <= pv.len(),
            n == pv.len(),
            pv == parts@.map_values(|t: Vec<char>| t@),
            out@.map_values(|s: String| s@) == spec_trimmed_tokens(pv.take(i as int)),
        decreases n - i,
    {
        proof {
            assert(pv.take(i + 1 as int).drop_last() =~= pv.take(i as int));
            assert(pv.take(i + 1 as int).last() == pv[i as int]);
        }
        let trimmed = trim_chars(&parts[i]);
        out.push(chars_to_string(&trimmed));
        proof {
            assert(out@.map_values(|s: String| s@) =~= spec_trimmed_tokens(pv.take(i + 1 as int)));
        }
        i = i + 1;
    }
    proof {
        assert(pv.take(n as int) =~= pv);
    }
    out
}

} // verus!
