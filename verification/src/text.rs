//! Character-level text handling: conversion between strings and character
//! sequences, whitespace trimming, splitting on a separator, the syntax of
//! decimal floating-point literals, and decimal rendering of integers.
use vstd::prelude::*;

verus! {

/// The characters of `s`, in order.
pub fn chars_of(s: &str) -> (r: Vec<char>)
    ensures
        r@ == s@,
{
    broadcast use vstd::string::group_string_axioms;

    let mut out: Vec<char> = Vec::new();
    for c in it: s.chars()
        invariant
            out@ == it.seq().take(it.index() as int),
    {
        out.push(c);
    }
    out
}

/// The string made of the characters `cs`, in order.
///
/// Trusted: builds the string with `String::from_iter`; the contract claims
/// that the string's characters are exactly `cs`, in order.
#[verifier::external_body]
pub fn string_of(cs: &[char]) -> (r: String)
    ensures
        r@ == cs@,
{
    String::from_iter(cs)
}

/// The ASCII character of the decimal digit `d`.
pub open spec fn digit_char(d: nat) -> char {
    if d == 0 { '0' }
    else if d == 1 { '1' }
    else if d == 2 { '2' }
    else if d == 3 { '3' }
    else if d == 4 { '4' }
    else if d == 5 { '5' }
    else if d == 6 { '6' }
    else if d == 7 { '7' }
    else if d == 8 { '8' }
    else { '9' }
}

/// The decimal representation of `n`, without leading zeros.
pub open spec fn decimal(n: nat) -> Seq<char>
    decreases n,
{
    if n < 10 {
        seq![digit_char(n)]
    } else {
        decimal(n / 10).push(digit_char(n % 10))
    }
}

fn digit_char_exec(d: usize) -> (c: char)
    requires
        d < 10,
    ensures
        c == digit_char(d as nat),
{
    if d == 0 { '0' }
    else if d == 1 { '1' }
    else if d == 2 { '2' }
    else if d == 3 { '3' }
    else if d == 4 { '4' }
    else if d == 5 { '5' }
    else if d == 6 { '6' }
    else if d == 7 { '7' }
    else if d == 8 { '8' }
    else { '9' }
}

/// Appends the decimal representation of `n` to `out`.
pub fn push_decimal(out: &mut Vec<char>, n: usize)
    ensures
        final(out)@ == old(out)@ + decimal(n as nat),
    decreases n,
{
    if n >= 10 {
        push_decimal(out, n / 10);
    }
    out.push(digit_char_exec(n % 10));
}

/// Appends the characters of `s` to `out`.
pub fn push_str(out: &mut Vec<char>, s: &str)
    ensures
        final(out)@ == old(out)@ + s@,
{
    let mut cs = chars_of(s);
    out.append(&mut cs);
}

/// Unicode `White_Space`, the characters that `char::is_whitespace` accepts:
/// U+0009 to U+000D, U+0020, U+0085, U+00A0, U+1680, U+2000 to U+200A,
/// U+2028, U+2029, U+202F, U+205F and U+3000.
pub open spec fn is_white_space(c: char) -> bool {
    ||| '\u{9}' <= c <= '\u{d}'
    ||| c == ' '
    ||| c == '\u{85}'
    ||| c == '\u{a0}'
    ||| c == '\u{1680}'
    ||| '\u{2000}' <= c <= '\u{200a}'
    ||| c == '\u{2028}'
    ||| c == '\u{2029}'
    ||| c == '\u{202f}'
    ||| c == '\u{205f}'
    ||| c == '\u{3000}'
}

/// Whether `c` is white space (see [`is_white_space`]).
pub fn is_white_space_char(c: char) -> (r: bool)
    ensures
        r == is_white_space(c),
{
    ('\u{9}' <= c && c <= '\u{d}') || c == ' ' || c == '\u{85}' || c == '\u{a0}' || c == '\u{1680}'
        || ('\u{2000}' <= c && c <= '\u{200a}') || c == '\u{2028}' || c == '\u{2029}' || c
        == '\u{202f}' || c == '\u{205f}' || c == '\u{3000}'
}

/// `s` without its leading white space.
pub open spec fn trim_start(s: Seq<char>) -> Seq<char>
    decreases s.len(),
{
    if s.len() > 0 && is_white_space(s[0]) {
        trim_start(s.drop_first())
    } else {
        s
    }
}

/// `s` without its trailing white space.
pub open spec fn trim_end(s: Seq<char>) -> Seq<char>
    decreases s.len(),
{
    if s.len() > 0 && is_white_space(s.last()) {
        trim_end(s.drop_last())
    } else {
        s
    }
}

/// `s` without its leading and trailing white space.
pub open spec fn trim(s: Seq<char>) -> Seq<char> {
    trim_end(trim_start(s))
}

/// Skipping a white-space prefix does not change what `trim_start` gives.
proof fn lemma_trim_start_skip(s: Seq<char>, a: int)
    requires
        0 <= a <= s.len(),
        forall|j: int| 0 <= j < a ==> is_white_space(#[trigger] s[j]),
    ensures
        trim_start(s) == trim_start(s.skip(a)),
    decreases a,
{
    if a > 0 {
        assert(s.drop_first().skip(a - 1) =~= s.skip(a));
        assert forall|j: int| 0 <= j < a - 1 implies is_white_space(#[trigger] s.drop_first()[j]) by {
            assert(s.drop_first()[j] == s[j + 1]);
        }
        lemma_trim_start_skip(s.drop_first(), a - 1);
        assert(is_white_space(s[0]));
    } else {
        assert(s.skip(0) =~= s);
    }
}

/// Dropping a white-space suffix does not change what `trim_end` gives.
proof fn lemma_trim_end_take(s: Seq<char>, b: int)
    requires
        0 <= b <= s.len(),
        forall|j: int| b <= j < s.len() ==> is_white_space(#[trigger] s[j]),
    ensures
        trim_end(s) == trim_end(s.take(b)),
    decreases s.len() - b,
{
    if b < s.len() {
        assert(s.drop_last().take(b) =~= s.take(b));
        assert forall|j: int| b <= j < s.len() - 1 implies is_white_space(#[trigger] s.drop_last()[j]) by {
            assert(s.drop_last()[j] == s[j]);
        }
        lemma_trim_end_take(s.drop_last(), b);
    } else {
        assert(s.take(b) =~= s);
    }
}

/// `cs` without leading and trailing white space.
pub fn trim_chars(cs: &[char]) -> (r: Vec<char>)
    ensures
        r@ == trim(cs@),
{
    let n = cs.len();
    let mut a: usize = 0;
    while a < n && is_white_space_char(cs[a])
        invariant
            0 <= a <= n,
            n == cs@.len(),
            forall|j: int| 0 <= j < a ==> is_white_space(#[trigger] cs@[j]),
        decreases n - a,
    {
        a = a + 1;
    }
    let mut b: usize = n;
    while b > a && is_white_space_char(cs[b - 1])
        invariant
            a <= b <= n,
            n == cs@.len(),
            forall|j: int| b <= j < n ==> is_white_space(#[trigger] cs@[j]),
        decreases b,
    {
        b = b - 1;
    }
    let mut out: Vec<char> = Vec::new();
    let mut i: usize = a;
    while i < b
        invariant
            a <= i <= b <= n,
            n == cs@.len(),
            out@ == cs@.subrange(a as int, i as int),
        decreases b - i,
    {
        out.push(cs[i]);
        i = i + 1;
    }
    proof {
        let s = cs@;
        lemma_trim_start_skip(s, a as int);
        let u = s.skip(a as int);
        // The remainder after the white-space prefix starts with a non-space.
        assert(trim_start(u) == u);
        assert forall|j: int| b - a <= j < u.len() implies is_white_space(#[trigger] u[j]) by {
            assert(u[j] == s[j + a]);
        }
        lemma_trim_end_take(u, b - a);
        let v = u.take(b - a);
        assert(v =~= s.subrange(a as int, b as int));
        assert(trim_end(v) == v);
    }
    out
}

/// The pieces of `s` between occurrences of `sep`, in order: one more piece
/// than there are separators, empty pieces included.
pub open spec fn split_on(s: Seq<char>, sep: char) -> Seq<Seq<char>>
    decreases s.len(),
{
    if s.len() == 0 {
        seq![Seq::<char>::empty()]
    } else {
        let r = split_on(s.drop_last(), sep);
        if s.last() == sep {
            r.push(Seq::<char>::empty())
        } else {
            r.update(r.len() - 1, r.last().push(s.last()))
        }
    }
}

/// There is always at least one piece.
pub proof fn lemma_split_on_nonempty(s: Seq<char>, sep: char)
    ensures
        split_on(s, sep).len() >= 1,
    decreases s.len(),
{
    if s.len() > 0 {
        lemma_split_on_nonempty(s.drop_last(), sep);
    }
}

/// Pieces put back together with the separator between them.
pub open spec fn join_on(pieces: Seq<Seq<char>>, sep: char) -> Seq<char>
    decreases pieces.len(),
{
    if pieces.len() == 0 {
        Seq::empty()
    } else if pieces.len() == 1 {
        pieces[0]
    } else {
        join_on(pieces.drop_last(), sep) + seq![sep] + pieces.last()
    }
}

/// Extending the last piece extends the joined text.
proof fn lemma_join_extend_last(r: Seq<Seq<char>>, sep: char, c: char)
    requires
        r.len() >= 1,
    ensures
        join_on(r.update(r.len() - 1, r.last().push(c)), sep) == join_on(r, sep).push(c),
{
    let u = r.update(r.len() - 1, r.last().push(c));
    if r.len() > 1 {
        assert(u.drop_last() =~= r.drop_last());
        assert(u.last() == r.last().push(c));
        assert(join_on(u, sep) =~= join_on(r, sep).push(c));
    }
}

/// Splitting on a separator loses nothing: joining the pieces with the
/// separator gives the text back, and no piece holds the separator.
pub proof fn law_split_rejoins(s: Seq<char>, sep: char)
    ensures
        join_on(split_on(s, sep), sep) == s,
        forall|k: int, i: int|
            0 <= k < split_on(s, sep).len() && 0 <= i < split_on(s, sep)[k].len() ==> #[trigger] split_on(
                s,
                sep,
            )[k][i] != sep,
    decreases s.len(),
{
    if s.len() == 0 {
        assert(join_on(split_on(s, sep), sep) =~= s);
    } else {
        let t = s.drop_last();
        let r = split_on(t, sep);
        law_split_rejoins(t, sep);
        lemma_split_on_nonempty(t, sep);
        assert(t.push(s.last()) =~= s);
        if s.last() == sep {
            let p = r.push(Seq::<char>::empty());
            assert(p.drop_last() =~= r);
            assert(join_on(p, sep) =~= t + seq![sep]);
            assert forall|k: int, i: int|
                0 <= k < p.len() && 0 <= i < p[k].len() implies #[trigger] p[k][i] != sep by {
                assert(p[k] == r[k]);
            }
        } else {
            let p = r.update(r.len() - 1, r.last().push(s.last()));
            lemma_join_extend_last(r, sep, s.last());
            assert forall|k: int, i: int|
                0 <= k < p.len() && 0 <= i < p[k].len() implies #[trigger] p[k][i] != sep by {
                if k < r.len() - 1 {
                    assert(p[k] == r[k]);
                } else {
                    let last = r.last();
                    assert(p[k] == last.push(s.last()));
                    if i < last.len() {
                        assert(last[i] == r[r.len() - 1][i]);
                    }
                }
            }
        }
    }
}

/// The character sequences held by a sequence of vectors.
pub open spec fn char_rows(v: Seq<Vec<char>>) -> Seq<Seq<char>> {
    v.map_values(|x: Vec<char>| x@)
}

/// The pieces of `cs` between occurrences of `sep` (see [`split_on`]).
pub fn split_chars(cs: &[char], sep: char) -> (r: Vec<Vec<char>>)
    ensures
        char_rows(r@) == split_on(cs@, sep),
{
    let n = cs.len();
    let mut done: Vec<Vec<char>> = Vec::new();
    let mut current: Vec<char> = Vec::new();
    let mut i: usize = 0;
    assert(cs@.take(0) =~= Seq::<char>::empty());
    assert(char_rows(done@).push(current@) =~= split_on(cs@.take(0), sep));
    while i < n
        invariant
            0 <= i <= n,
            n == cs@.len(),
            char_rows(done@).push(current@) == split_on(cs@.take(i as int), sep),
        decreases n - i,
    {
        let c = cs[i];
        let ghost before = cs@.take(i as int);
        assert(cs@.take(i + 1).drop_last() =~= before);
        assert(cs@.take(i + 1).last() == c);
        proof {
            lemma_split_on_nonempty(before, sep);
        }
        if c == sep {
            let ghost old_done = char_rows(done@);
            let finished = current;
            done.push(finished);
            current = Vec::new();
            assert(char_rows(done@) =~= old_done.push(finished@));
            assert(char_rows(done@).push(current@) =~= split_on(cs@.take(i + 1), sep));
        } else {
            let ghost old_current = current@;
            current.push(c);
            assert(char_rows(done@).push(current@) =~= split_on(cs@.take(i + 1), sep));
        }
        i = i + 1;
    }
    assert(cs@.take(n as int) =~= cs@);
    let ghost old_done = char_rows(done@);
    let last = current;
    done.push(last);
    assert(char_rows(done@) =~= old_done.push(last@));
    done
}

/// An ASCII decimal digit.
pub open spec fn is_digit(c: char) -> bool {
    '0' <= c <= '9'
}

/// A sign, `+` or `-`.
pub open spec fn is_sign(c: char) -> bool {
    c == '+' || c == '-'
}

/// The number of decimal digits at the start of `s`.
pub open spec fn leading_digits(s: Seq<char>) -> nat
    decreases s.len(),
{
    if s.len() > 0 && is_digit(s[0]) {
        1 + leading_digits(s.drop_first())
    } else {
        0
    }
}

/// An exponent's digits after the `e`: an optional sign, then one or more
/// digits, and nothing else.
pub open spec fn is_exponent_digits(t: Seq<char>) -> bool {
    let u = if t.len() > 0 && is_sign(t[0]) { t.drop_first() } else { t };
    u.len() > 0 && leading_digits(u) == u.len()
}

/// An unsigned decimal number: digits, optionally a point and more digits,
/// with at least one digit in all, then optionally `e` or `E` and an
/// exponent.
pub open spec fn is_decimal_number(s: Seq<char>) -> bool {
    let a = leading_digits(s);
    let r = s.skip(a as int);
    let has_point = r.len() > 0 && r[0] == '.';
    let b = if has_point { leading_digits(r.drop_first()) } else { 0 };
    let rest = if has_point { r.drop_first().skip(b as int) } else { r };
    &&& a + b > 0
    &&& rest.len() == 0 || ((rest[0] == 'e' || rest[0] == 'E') && is_exponent_digits(
        rest.drop_first(),
    ))
}

/// The ASCII lower-case form of a character.
pub open spec fn ascii_lower(c: char) -> char {
    if 'A' <= c <= 'Z' {
        ((c as u32) + 32) as char
    } else {
        c
    }
}

/// `s` equals `word` (lower-case ASCII) ignoring ASCII case.
pub open spec fn equals_ignoring_case(s: Seq<char>, word: Seq<char>) -> bool {
    s.len() == word.len() && forall|i: int| 0 <= i < s.len() ==> ascii_lower(#[trigger] s[i])
        == word[i]
}

/// The syntax that `str::parse` accepts for a binary64 number: an optional
/// sign, then `inf`, `infinity` or `nan` in any case, or a decimal number.
pub open spec fn is_float_literal(s: Seq<char>) -> bool {
    let body = if s.len() > 0 && is_sign(s[0]) { s.drop_first() } else { s };
    ||| equals_ignoring_case(body, seq!['i', 'n', 'f'])
    ||| equals_ignoring_case(body, seq!['i', 'n', 'f', 'i', 'n', 'i', 't', 'y'])
    ||| equals_ignoring_case(body, seq!['n', 'a', 'n'])
    ||| is_decimal_number(body)
}

/// A sequence made only of the digits 0 to 9 starts with all of them.
proof fn lemma_all_digits_leading(s: Seq<char>)
    requires
        forall|i: int| 0 <= i < s.len() ==> '0' <= #[trigger] s[i] <= '9',
    ensures
        leading_digits(s) == s.len(),
    decreases s.len(),
{
    if s.len() > 0 {
        assert forall|i: int| 0 <= i < s.len() - 1 implies '0' <= #[trigger] s.drop_first()[i]
            <= '9' by {
            assert(s.drop_first()[i] == s[i + 1]);
        }
        lemma_all_digits_leading(s.drop_first());
    }
}

/// Every non-empty string of the digits 0 to 9 is a float literal, as
/// `str::parse` reads any such string as a number.
pub proof fn law_digit_strings_are_float_literals(s: Seq<char>)
    requires
        s.len() > 0,
        forall|i: int| 0 <= i < s.len() ==> '0' <= #[trigger] s[i] <= '9',
    ensures
        is_float_literal(s),
{
    lemma_all_digits_leading(s);
    assert(s[0] != '+' && s[0] != '-');
    assert(s.skip(s.len() as int).len() == 0);
}

/// A string of digits with a point between digits, and optionally an
/// exponent of digits, is a float literal.
pub proof fn law_point_numbers_are_float_literals(whole: Seq<char>, fraction: Seq<char>)
    requires
        whole.len() > 0,
        forall|i: int| 0 <= i < whole.len() ==> '0' <= #[trigger] whole[i] <= '9',
        forall|i: int| 0 <= i < fraction.len() ==> '0' <= #[trigger] fraction[i] <= '9',
    ensures
        is_float_literal(whole + seq!['.'] + fraction),
{
    let s = whole + seq!['.'] + fraction;
    lemma_all_digits_leading(fraction);
    lemma_leading_digits_prefix(whole, seq!['.'] + fraction);
    assert(s =~= whole + (seq!['.'] + fraction));
    assert(s.skip(whole.len() as int) =~= seq!['.'] + fraction);
    assert((seq!['.'] + fraction).drop_first() =~= fraction);
    assert(fraction.skip(fraction.len() as int).len() == 0);
    assert(s[0] == whole[0]);
}

/// Digits in front of a non-digit count as the leading digits.
proof fn lemma_leading_digits_prefix(digits: Seq<char>, rest: Seq<char>)
    requires
        forall|i: int| 0 <= i < digits.len() ==> '0' <= #[trigger] digits[i] <= '9',
        rest.len() > 0,
        !is_digit(rest[0]),
    ensures
        leading_digits(digits + rest) == digits.len(),
    decreases digits.len(),
{
    if digits.len() == 0 {
        assert(digits + rest =~= rest);
    } else {
        assert((digits + rest).drop_first() =~= digits.drop_first() + rest);
        assert forall|i: int| 0 <= i < digits.len() - 1 implies '0' <= #[trigger] digits.drop_first()[i]
            <= '9' by {
            assert(digits.drop_first()[i] == digits[i + 1]);
        }
        lemma_leading_digits_prefix(digits.drop_first(), rest);
    }
}

/// The number of digits in `cs` from index `from` on.
fn count_digits(cs: &[char], from: usize) -> (r: usize)
    requires
        from <= cs@.len(),
    ensures
        r == leading_digits(cs@.skip(from as int)),
        from + r <= cs@.len(),
{
    let n = cs.len();
    let mut j: usize = from;
    while j < n && '0' <= cs[j] && cs[j] <= '9'
        invariant
            from <= j <= n,
            n == cs@.len(),
            leading_digits(cs@.skip(from as int)) == (j - from) + leading_digits(cs@.skip(j as int)),
        decreases n - j,
    {
        assert(cs@.skip(j as int).drop_first() =~= cs@.skip(j + 1));
        j = j + 1;
    }
    j - from
}

fn lower_ascii(c: char) -> (r: char)
    ensures
        r == ascii_lower(c),
{
    if 'A' <= c && c <= 'Z' {
        ((c as u32) + 32) as u8 as char
    } else {
        c
    }
}

/// Whether `cs[from..]` equals `word` ignoring ASCII case.
fn matches_word(cs: &[char], from: usize, word: &[char]) -> (r: bool)
    requires
        from <= cs@.len(),
    ensures
        r == equals_ignoring_case(cs@.skip(from as int), word@),
{
    let n = cs.len();
    if n - from != word.len() {
        return false;
    }
    let mut i: usize = 0;
    while i < word.len()
        invariant
            0 <= i <= word@.len(),
            n == cs@.len(),
            from + word@.len() == n,
            cs@.len() - from == word@.len(),
            forall|j: int| 0 <= j < i ==> ascii_lower(#[trigger] cs@.skip(from as int)[j]) == word@[j],
        decreases word@.len() - i,
    {
        if lower_ascii(cs[from + i]) != word[i] {
            assert(cs@.skip(from as int)[i as int] == cs@[from + i]);
            return false;
        }
        assert(cs@.skip(from as int)[i as int] == cs@[from + i]);
        i = i + 1;
    }
    true
}

/// Whether `cs[from..]` is an exponent's digits (see [`is_exponent_digits`]).
fn check_exponent_digits(cs: &[char], from: usize) -> (r: bool)
    requires
        from <= cs@.len(),
    ensures
        r == is_exponent_digits(cs@.skip(from as int)),
{
    let n = cs.len();
    let ghost t = cs@.skip(from as int);
    let mut e = from;
    if e < n && (cs[e] == '+' || cs[e] == '-') {
        assert(t.drop_first() =~= cs@.skip(e + 1));
        e = e + 1;
    }
    let c = count_digits(cs, e);
    c > 0 && e + c == n
}

/// Whether `cs[from..]` is a decimal number (see [`is_decimal_number`]).
fn check_decimal_number(cs: &[char], from: usize) -> (r: bool)
    requires
        from <= cs@.len(),
    ensures
        r == is_decimal_number(cs@.skip(from as int)),
{
    let n = cs.len();
    let ghost body = cs@.skip(from as int);
    let a = count_digits(cs, from);
    let mut pos = from + a;
    assert(body.skip(a as int) =~= cs@.skip(pos as int));
    let mut b: usize = 0;
    if pos < n && cs[pos] == '.' {
        assert(body.skip(a as int).drop_first() =~= cs@.skip(pos + 1));
        b = count_digits(cs, pos + 1);
        pos = pos + 1 + b;
        assert(body.skip(a as int).drop_first().skip(b as int) =~= cs@.skip(pos as int));
    }
    if a + b == 0 {
        return false;
    }
    if pos == n {
        return true;
    }
    if cs[pos] != 'e' && cs[pos] != 'E' {
        return false;
    }
    assert(cs@.skip(pos as int).drop_first() =~= cs@.skip(pos + 1));
    check_exponent_digits(cs, pos + 1)
}

/// Whether `cs[from..]` is `inf`, `infinity` or `nan` in any case.
fn check_special_word(cs: &[char], from: usize) -> (r: bool)
    requires
        from <= cs@.len(),
    ensures
        r == (equals_ignoring_case(cs@.skip(from as int), seq!['i', 'n', 'f'])
            || equals_ignoring_case(cs@.skip(from as int), seq!['i', 'n', 'f', 'i', 'n', 'i', 't', 'y'])
            || equals_ignoring_case(cs@.skip(from as int), seq!['n', 'a', 'n'])),
{
    let inf = ['i', 'n', 'f'];
    let infinity = ['i', 'n', 'f', 'i', 'n', 'i', 't', 'y'];
    let nan = ['n', 'a', 'n'];
    assert(inf@ =~= seq!['i', 'n', 'f']);
    assert(infinity@ =~= seq!['i', 'n', 'f', 'i', 'n', 'i', 't', 'y']);
    assert(nan@ =~= seq!['n', 'a', 'n']);
    matches_word(cs, from, inf.as_slice()) || matches_word(cs, from, infinity.as_slice())
        || matches_word(cs, from, nan.as_slice())
}

/// Whether `cs` is a float literal (see [`is_float_literal`]).
pub fn check_float_literal(cs: &[char]) -> (r: bool)
    ensures
        r == is_float_literal(cs@),
{
    let n = cs.len();
    let start: usize = if n > 0 && (cs[0] == '+' || cs[0] == '-') { 1 } else { 0 };
    let ghost body = if n > 0 && is_sign(cs@[0]) { cs@.drop_first() } else { cs@ };
    assert(body =~= cs@.skip(start as int));
    check_special_word(cs, start) || check_decimal_number(cs, start)
}

} // verus!
