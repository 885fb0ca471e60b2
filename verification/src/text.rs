//! Character-level vocabulary shared by the parsers: whitespace, trimming,
//! searching and decimal numbers, each with its mathematical meaning.

use vstd::prelude::*;

verus! {

/// The characters of `s`, in order.
pub fn chars_of(s: &str) -> (chars: Vec<char>)
    ensures
        chars@ == s@,
{
    let mut chars: Vec<char> = Vec::new();
    for c in it: s.chars()
        invariant
            chars@ == it.seq().take(it.index()),
            it.seq() == s@,
    {
        chars.push(c);
    }
    chars
}

/// Whether `a` and `b` hold the same characters.
pub fn same_text(a: &str, b: &str) -> (same: bool)
    ensures
        same == (a@ == b@),
{
    let left = chars_of(a);
    let right = chars_of(b);
    if left.len() != right.len() {
        return false;
    }
    let mut i: usize = 0;
    while i < left.len()
        invariant
            i <= left.len(),
            left.len() == right.len(),
            left@ == a@,
            right@ == b@,
            forall|k: int| 0 <= k < i ==> left@[k] == right@[k],
        decreases left.len() - i,
    {
        if left[i] != right[i] {
            return false;
        }
        i += 1;
    }
    assert(a@ =~= b@);
    true
}

/// Code points with the Unicode property `White_Space`.
pub open spec fn is_whitespace(c: char) -> bool {
    ||| '\u{9}' <= c <= '\u{d}'
    ||| c == ' '
    ||| c == '\u{85}'
    ||| c == '\u{a0}'
    ||| c == '\u{1680}'
    ||| '\u{2000}' <= c <= '\u{200a}'
    ||| c == '\u{2028}'
    ||| c == '\u{2029}'
    ||| c == '\u{202f}'
    ||| c == '\u{205f}'
    ||| c == '\u{3000}'
}

/// Decides [`is_whitespace`].
pub fn char_is_whitespace(c: char) -> (ws: bool)
    ensures
        ws == is_whitespace(c),
{
    ('\u{9}' <= c && c <= '\u{d}') || c == ' ' || c == '\u{85}' || c == '\u{a0}' || c == '\u{1680}'
        || ('\u{2000}' <= c && c <= '\u{200a}') || c == '\u{2028}' || c == '\u{2029}' || c
        == '\u{202f}' || c == '\u{205f}' || c == '\u{3000}'
}

/// `s` without its leading whitespace.
pub open spec fn trim_start(s: Seq<char>) -> Seq<char>
    decreases s.len(),
{
    if s.len() > 0 && is_whitespace(s.first()) {
        trim_start(s.drop_first())
    } else {
        s
    }
}

/// `s` without its trailing whitespace.
pub open spec fn trim_end(s: Seq<char>) -> Seq<char>
    decreases s.len(),
{
    if s.len() > 0 && is_whitespace(s.last()) {
        trim_end(s.drop_last())
    } else {
        s
    }
}

/// `s` without its leading and trailing whitespace.
pub open spec fn trimmed(s: Seq<char>) -> Seq<char> {
    trim_end(trim_start(s))
}

/// Whether every character of `s` is whitespace (true of the empty sequence).
pub open spec fn is_blank(s: Seq<char>) -> bool {
    forall|i: int| 0 <= i < s.len() ==> is_whitespace(#[trigger] s[i])
}

/// Leading whitespace can be dropped one position at a time.
proof fn lemma_trim_start_skip(s: Seq<char>, n: int)
    requires
        0 <= n <= s.len(),
        is_blank(s.take(n)),
    ensures
        trim_start(s) == trim_start(s.skip(n)),
    decreases n,
{
    if n > 0 {
        assert(s.take(n)[0] == s[0]);
        assert forall|i: int| 0 <= i < n - 1 implies is_whitespace(
            #[trigger] s.drop_first().take(n - 1)[i],
        ) by {
            assert(s.drop_first().take(n - 1)[i] == s.take(n)[i + 1]);
        }
        lemma_trim_start_skip(s.drop_first(), n - 1);
        assert(s.drop_first().skip(n - 1) =~= s.skip(n));
    } else {
        assert(s.skip(0) =~= s);
    }
}

/// Trailing whitespace can be dropped one position at a time.
proof fn lemma_trim_end_take(s: Seq<char>, n: int)
    requires
        0 <= n <= s.len(),
        is_blank(s.skip(n)),
    ensures
        trim_end(s) == trim_end(s.take(n)),
    decreases s.len() - n,
{
    if n < s.len() {
        assert(s.skip(n)[s.len() - n - 1] == s.last());
        assert forall|i: int| 0 <= i < s.len() - 1 - n implies is_whitespace(
            #[trigger] s.drop_last().skip(n)[i],
        ) by {
            assert(s.drop_last().skip(n)[i] == s.skip(n)[i]);
        }
        lemma_trim_end_take(s.drop_last(), n);
        assert(s.drop_last().take(n) =~= s.take(n));
    } else {
        assert(s.take(n) =~= s);
    }
}

/// Trimming at the start stops at the first character that is not
/// whitespace: what follows it is kept as it is.
pub proof fn lemma_trim_start_stops(lead: Seq<char>, rest: Seq<char>)
    requires
        rest.len() > 0,
        !is_whitespace(rest.first()),
    ensures
        trim_start(lead + rest) == trim_start(lead) + rest,
    decreases lead.len(),
{
    let whole = lead + rest;
    if lead.len() == 0 {
        assert(whole =~= rest);
        assert(trim_start(lead) + rest =~= rest);
    } else {
        assert(whole.first() == lead.first());
        assert(whole.drop_first() =~= lead.drop_first() + rest);
        if is_whitespace(lead.first()) {
            lemma_trim_start_stops(lead.drop_first(), rest);
        }
    }
}

/// A string that neither begins nor ends with whitespace is its own
/// trimmed form.
pub proof fn lemma_trimmed_unchanged(s: Seq<char>)
    requires
        s.len() > 0,
        !is_whitespace(s.first()),
        !is_whitespace(s.last()),
    ensures
        trimmed(s) == s,
{
}

/// A string of nothing but whitespace trims to the empty string.
pub proof fn lemma_blank_trims_to_nothing(s: Seq<char>)
    requires
        is_blank(s),
    ensures
        trimmed(s).len() == 0,
{
    assert(s.take(s.len() as int) =~= s);
    lemma_trim_start_skip(s, s.len() as int);
}

/// The slice of `s` between its first and its last character that is not
/// whitespace; empty where `s` has none.
pub fn trim(s: &str) -> (t: &str)
    ensures
        t@ == trimmed(s@),
{
    let chars = chars_of(s);
    let mut start: usize = 0;
    while start < chars.len() && char_is_whitespace(chars[start])
        invariant
            start <= chars.len(),
            is_blank(chars@.take(start as int)),
        decreases chars.len() - start,
    {
        start += 1;
    }
    let mut end: usize = chars.len();
    while end > start && char_is_whitespace(chars[end - 1])
        invariant
            start <= end <= chars.len(),
            is_blank(chars@.skip(end as int)),
        decreases end,
    {
        proof {
            let tail = chars@.skip(end as int);
            assert forall|i: int| 0 <= i < chars.len() - end + 1 implies is_whitespace(
                #[trigger] chars@.skip(end - 1)[i],
            ) by {
                if i > 0 {
                    assert(chars@.skip(end - 1)[i] == tail[i - 1]);
                }
            }
        }
        end -= 1;
    }
    proof {
        let rest = chars@.skip(start as int);
        lemma_trim_start_skip(chars@, start as int);
        assert(trim_start(chars@) == rest);
        assert(rest.skip(end - start) =~= chars@.skip(end as int));
        lemma_trim_end_take(rest, end - start);
        assert(rest.take(end - start) =~= chars@.subrange(start as int, end as int));
    }
    s.substring_char(start, end)
}

/// Whether `c` is one of the ten ASCII decimal digits.
pub open spec fn is_digit(c: char) -> bool {
    '0' <= c <= '9'
}

/// Whether `s` consists of decimal digits only (true of the empty sequence).
pub open spec fn all_digits(s: Seq<char>) -> bool {
    forall|i: int| 0 <= i < s.len() ==> is_digit(#[trigger] s[i])
}

/// The number a decimal digit stands for.
pub open spec fn digit_value(c: char) -> nat {
    (c as nat - '0' as nat) as nat
}

/// The number that the digits of `s` denote in base ten, most significant
/// digit first.
pub open spec fn decimal_value(s: Seq<char>) -> nat
    decreases s.len(),
{
    if s.len() == 0 {
        0
    } else {
        decimal_value(s.drop_last()) * 10 + digit_value(s.last())
    }
}

/// The digits of a number written with an optional leading `+`.
pub open spec fn unsigned_digits(s: Seq<char>) -> Seq<char> {
    if s.len() > 0 && s.first() == '+' {
        s.drop_first()
    } else {
        s
    }
}

/// The number that `s` spells, if it spells one that a `usize` can hold: an
/// optional `+`, then one or more decimal digits and nothing else.
pub open spec fn parsed_usize(s: Seq<char>) -> Option<usize> {
    let digits = unsigned_digits(s);
    if digits.len() > 0 && all_digits(digits) && decimal_value(digits) <= usize::MAX {
        Some(decimal_value(digits) as usize)
    } else {
        None
    }
}

/// A number is at least as large as the number spelled by any prefix of its
/// digits.
proof fn lemma_decimal_prefix(s: Seq<char>, n: int)
    requires
        0 <= n <= s.len(),
    ensures
        decimal_value(s.take(n)) <= decimal_value(s),
    decreases s.len() - n,
{
    if n < s.len() {
        lemma_decimal_prefix(s.drop_last(), n);
        assert(s.drop_last().take(n) =~= s.take(n));
    } else {
        assert(s.take(n) =~= s);
    }
}

/// Reads `s` as a non-negative decimal number.
pub fn parse_usize(s: &str) -> (number: Option<usize>)
    ensures
        number == parsed_usize(s@),
{
    let chars = chars_of(s);
    let n: usize = chars.len();
    let start: usize = if n > 0 && chars[0] == '+' {
        1
    } else {
        0
    };
    let ghost digits = unsigned_digits(s@);
    assert(digits =~= chars@.skip(start as int));
    if start == n {
        return None;
    }
    let mut value: usize = 0;
    let mut i: usize = start;
    while i < n
        invariant
            start <= i <= n,
            n == chars.len(),
            digits == unsigned_digits(s@),
            digits == chars@.skip(start as int),
            all_digits(digits.take(i - start)),
            value == decimal_value(digits.take(i - start)),
        decreases n - i,
    {
        let c = chars[i];
        assert(c == digits[i - start]);
        if !('0' <= c && c <= '9') {
            assert(!is_digit(digits[i - start]));
            return None;
        }
        let d: usize = (c as u32 - '0' as u32) as usize;
        proof {
            let next = digits.take(i - start + 1);
            assert(next.drop_last() =~= digits.take(i - start));
            assert(next.last() == c);
            assert(decimal_value(next) == value * 10 + d);
            assert(all_digits(next)) by {
                assert forall|k: int| 0 <= k < next.len() implies is_digit(#[trigger] next[k]) by {
                    if k < i - start {
                        assert(next[k] == digits.take(i - start)[k]);
                    }
                }
            }
            lemma_decimal_prefix(digits, i - start + 1);
        }
        if value > (usize::MAX - d) / 10 {
            return None;
        }
        value = value * 10 + d;
        i += 1;
    }
    assert(digits.take(n - start) =~= digits);
    Some(value)
}

/// Whether `pat` stands in `s` at position `i`.
pub open spec fn occurs_at(s: Seq<char>, pat: Seq<char>, i: int) -> bool {
    0 <= i && i + pat.len() <= s.len() && s.subrange(i, i + pat.len()) == pat
}

/// The position of the last occurrence of `pat` in `s`, if there is one.
pub open spec fn last_occurrence(s: Seq<char>, pat: Seq<char>) -> Option<int>
    decreases s.len(),
{
    if s.len() < pat.len() {
        None
    } else if occurs_at(s, pat, s.len() - pat.len()) {
        Some(s.len() - pat.len())
    } else if s.len() == 0 {
        None
    } else {
        last_occurrence(s.drop_last(), pat)
    }
}

/// [`last_occurrence`] finds an occurrence exactly when there is one, and
/// then no occurrence starts to the right of the one it finds.
pub proof fn lemma_last_occurrence(s: Seq<char>, pat: Seq<char>)
    ensures
        match last_occurrence(s, pat) {
            Some(i) => occurs_at(s, pat, i) && forall|j: int| i < j ==> !occurs_at(s, pat, j),
            None => forall|j: int| !occurs_at(s, pat, j),
        },
    decreases s.len(),
{
    let n = s.len() as int;
    let m = pat.len() as int;
    if n < m {
    } else if occurs_at(s, pat, n - m) {
    } else if n == 0 {
        assert(s.subrange(0, 0) =~= pat);
    } else {
        let shorter = s.drop_last();
        lemma_last_occurrence(shorter, pat);
        assert forall|j: int| 0 <= j && j + m <= n - 1 implies occurs_at(shorter, pat, j)
            == occurs_at(s, pat, j) by {
            assert(shorter.subrange(j, j + m) =~= s.subrange(j, j + m));
        }
    }
}

/// An occurrence with none to its right is the last one.
pub proof fn lemma_last_occurrence_is(s: Seq<char>, pat: Seq<char>, i: int)
    requires
        occurs_at(s, pat, i),
        forall|j: int| i < j ==> !occurs_at(s, pat, j),
    ensures
        last_occurrence(s, pat) == Some(i),
{
    lemma_last_occurrence(s, pat);
}

/// Decides [`occurs_at`] for a position at which `pattern` fits.
fn matches_at(text: &Vec<char>, pattern: &Vec<char>, at: usize) -> (hit: bool)
    requires
        at + pattern.len() <= text.len(),
    ensures
        hit == occurs_at(text@, pattern@, at as int),
{
    let ghost window = text@.subrange(at as int, at + pattern.len());
    let mut k: usize = 0;
    while k < pattern.len()
        invariant
            k <= pattern.len(),
            at + pattern.len() <= text.len(),
            window == text@.subrange(at as int, at + pattern.len()),
            forall|j: int| 0 <= j < k ==> window[j] == pattern@[j],
        decreases pattern.len() - k,
    {
        if text[at + k] != pattern[k] {
            assert(window[k as int] != pattern@[k as int]);
            return false;
        }
        k += 1;
    }
    assert(window =~= pattern@);
    true
}

/// The position, counted in characters, at which `pat` occurs last in `s`.
pub fn last_index_of(s: &str, pat: &str) -> (found: Option<usize>)
    ensures
        match found {
            Some(i) => last_occurrence(s@, pat@) == Some(i as int),
            None => last_occurrence(s@, pat@) is None,
        },
{
    let text = chars_of(s);
    let pattern = chars_of(pat);
    let m: usize = pattern.len();
    let mut end: usize = text.len();
    assert(text@.take(end as int) =~= text@);
    while end >= m
        invariant
            end <= text.len(),
            m == pattern.len(),
            text@ == s@,
            pattern@ == pat@,
            last_occurrence(text@, pattern@) == last_occurrence(text@.take(end as int), pattern@),
        decreases end,
    {
        let ghost head = text@.take(end as int);
        assert(head.subrange(end - m, end as int) =~= text@.subrange(end - m, end as int));
        if matches_at(&text, &pattern, end - m) {
            return Some(end - m);
        }
        assert(end > 0) by {
            if end == 0 {
                assert(text@.subrange(0, 0) =~= pattern@);
            }
        }
        assert(head.drop_last() =~= text@.take(end - 1));
        end -= 1;
    }
    None
}

} // verus!
