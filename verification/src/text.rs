//! Characters, decimal numbers and trimming, over sequences of characters.

use vstd::prelude::*;

verus! {

/// `String::push` appends one character to the end of the string.
pub assume_specification[ String::push ](s: &mut String, c: char)
    ensures
        final(s)@ == old(s)@.push(c),
;

/// The characters of `s`, in order.
pub fn chars_of(s: &str) -> (chars: Vec<char>)
    ensures
        chars@ == s@,
{
    let mut chars: Vec<char> = Vec::new();
    for c in it: s.chars()
        invariant
            it.seq() == s@,
            chars@ == s@.take(it.index()),
    {
        chars.push(c);
    }
    chars
}

/// The string made of `chars`, in order.
pub fn string_of(chars: &Vec<char>) -> (s: String)
    ensures
        s@ == chars@,
{
    let mut s = String::new();
    let mut i: usize = 0;
    while i < chars.len()
        invariant
            i <= chars.len(),
            s@ == chars@.take(i as int),
        decreases chars.len() - i,
    {
        s.push(chars[i]);
        i = i + 1;
    }
    s
}

/// Whether `c` is one of the ten ASCII digits.
pub open spec fn is_digit(c: char) -> bool {
    '0' <= c && c <= '9'
}

/// The number that the ASCII digit `c` stands for.
pub open spec fn digit_value(c: char) -> nat {
    (c as u32 - '0' as u32) as nat
}

/// The ASCII digit that stands for `d`, for `d` below ten.
pub open spec fn digit_char(d: nat) -> char {
    ((d + 48) as u8) as char
}

/// Whether every character of `s` is an ASCII digit.
pub open spec fn all_digits(s: Seq<char>) -> bool {
    forall|i: int| 0 <= i < s.len() ==> is_digit(#[trigger] s[i])
}

/// The number that the digits of `s` spell in base ten, most significant
/// digit first.
pub open spec fn digits_value(s: Seq<char>) -> nat
    decreases s.len(),
{
    if s.len() == 0 {
        0
    } else {
        digits_value(s.drop_last()) * 10 + digit_value(s.last())
    }
}

/// The number that `s` spells, where `s` is one or more ASCII digits and
/// nothing else.
pub open spec fn decimal_value(s: Seq<char>) -> Option<nat> {
    if s.len() > 0 && all_digits(s) {
        Some(digits_value(s))
    } else {
        None
    }
}

/// The digits that spell `n` in base ten, without leading zeros.
pub open spec fn decimal_digits(n: nat) -> Seq<char>
    decreases n,
{
    if n < 10 {
        seq![digit_char(n)]
    } else {
        decimal_digits(n / 10).push(digit_char(n % 10))
    }
}

/// `value` held at the largest `u64`.
pub open spec fn saturated(value: nat) -> nat {
    if value >= u64::MAX as nat {
        u64::MAX as nat
    } else {
        value
    }
}

/// Reading back the digits of a number gives the number.
pub proof fn lemma_decimal_round_trip(n: nat)
    ensures
        decimal_value(decimal_digits(n)) == Some(n),
    decreases n,
{
    if n < 10 {
        assert(digits_value(decimal_digits(n).drop_last()) == 0);
    } else {
        lemma_decimal_round_trip(n / 10);
        assert(decimal_digits(n).drop_last() =~= decimal_digits(n / 10));
    }
}

/// `s` without the run of `c` at its end.
pub open spec fn trim_end(s: Seq<char>, c: char) -> Seq<char>
    decreases s.len(),
{
    if s.len() > 0 && s.last() == c {
        trim_end(s.drop_last(), c)
    } else {
        s
    }
}

/// Removes the run of `c` at the end of `chars`.
pub fn trim_end_in_place(chars: &mut Vec<char>, c: char)
    ensures
        final(chars)@ == trim_end(old(chars)@, c),
{
    while chars.len() > 0 && chars[chars.len() - 1] == c
        invariant
            trim_end(chars@, c) == trim_end(old(chars)@, c),
        decreases chars.len(),
    {
        chars.pop();
    }
}

/// Whether `part` stands in `whole` at position `at`.
pub open spec fn occurs_at(whole: Seq<char>, part: Seq<char>, at: int) -> bool {
    0 <= at && at + part.len() <= whole.len() && whole.subrange(at, at + part.len()) == part
}

/// Whether `part` stands somewhere in `whole`.
pub open spec fn contains_text(whole: Seq<char>, part: Seq<char>) -> bool {
    exists|at: int| occurs_at(whole, part, at)
}

/// Whether `whole` begins with `part`.
pub open spec fn has_prefix(whole: Seq<char>, part: Seq<char>) -> bool {
    occurs_at(whole, part, 0)
}

/// Whether `whole` ends with `part`.
pub open spec fn has_suffix(whole: Seq<char>, part: Seq<char>) -> bool {
    occurs_at(whole, part, whole.len() - part.len())
}

/// The position of the first `c` in `s`; the length of `s` if it holds
/// none.
pub open spec fn first_index_of(s: Seq<char>, c: char) -> int
    decreases s.len(),
{
    if s.len() == 0 {
        0
    } else if s[0] == c {
        0
    } else {
        1 + first_index_of(s.drop_first(), c)
    }
}

/// The start of `s` up to its first `c`; all of `s` if it holds none.
pub open spec fn up_to(s: Seq<char>, c: char) -> Seq<char> {
    s.take(first_index_of(s, c))
}

/// The position of the first `c` lies within `s`, no `c` stands before it,
/// and one stands there unless it is the end.
pub proof fn lemma_first_index_of(s: Seq<char>, c: char)
    ensures
        0 <= first_index_of(s, c) <= s.len(),
        forall|i: int| 0 <= i < first_index_of(s, c) ==> s[i] != c,
        first_index_of(s, c) < s.len() ==> s[first_index_of(s, c)] == c,
    decreases s.len(),
{
    if s.len() > 0 && s[0] != c {
        let rest = s.drop_first();
        lemma_first_index_of(rest, c);
        assert forall|i: int| 0 <= i < first_index_of(s, c) implies s[i] != c by {
            if i > 0 {
                assert(s[i] == rest[i - 1]);
            }
        }
    }
}

/// `s` without the run of copies of `suffix` at its end.
pub open spec fn without_suffix_run(s: Seq<char>, suffix: Seq<char>) -> Seq<char>
    decreases s.len(),
{
    if suffix.len() > 0 && has_suffix(s, suffix) {
        without_suffix_run(s.take(s.len() - suffix.len()), suffix)
    } else {
        s
    }
}

/// `s` with `with` in place of each `c`.
pub open spec fn replaced(s: Seq<char>, c: char, with: Seq<char>) -> Seq<char>
    decreases s.len(),
{
    if s.len() == 0 {
        s
    } else if s.last() == c {
        replaced(s.drop_last(), c, with) + with
    } else {
        replaced(s.drop_last(), c, with).push(s.last())
    }
}

/// Whether `part` stands in `whole` at position `at`.
pub fn occurs_at_index(whole: &Vec<char>, part: &Vec<char>, at: usize) -> (found: bool)
    ensures
        found == occurs_at(whole@, part@, at as int),
{
    if at > whole.len() || part.len() > whole.len() - at {
        return false;
    }
    let mut i: usize = 0;
    while i < part.len()
        invariant
            i <= part.len(),
            at + part.len() <= whole.len(),
            forall|j: int| 0 <= j < i ==> whole[at + j] == part[j],
        decreases part.len() - i,
    {
        if whole[at + i] != part[i] {
            return false;
        }
        i = i + 1;
    }
    assert(whole@.subrange(at as int, at + part.len()) =~= part@);
    true
}

/// Whether `part` stands somewhere in `whole`.
pub fn contains_chars(whole: &Vec<char>, part: &Vec<char>) -> (found: bool)
    ensures
        found == contains_text(whole@, part@),
{
    if part.len() > whole.len() {
        return false;
    }
    let last: usize = whole.len() - part.len();
    let mut at: usize = 0;
    loop
        invariant
            at <= last,
            last == whole.len() - part.len(),
            forall|k: int| 0 <= k < at ==> !occurs_at(whole@, part@, k),
        decreases last - at,
    {
        if occurs_at_index(whole, part, at) {
            return true;
        }
        if at == last {
            return false;
        }
        at = at + 1;
    }
}

/// Whether `whole` begins with `part`.
pub fn starts_with_chars(whole: &Vec<char>, part: &Vec<char>) -> (found: bool)
    ensures
        found == has_prefix(whole@, part@),
{
    occurs_at_index(whole, part, 0)
}

/// Whether `whole` ends with `part`.
pub fn ends_with_chars(whole: &Vec<char>, part: &Vec<char>) -> (found: bool)
    ensures
        found == has_suffix(whole@, part@),
{
    if part.len() > whole.len() {
        false
    } else {
        occurs_at_index(whole, part, whole.len() - part.len())
    }
}

/// Whether `a` and `b` hold the same characters.
pub fn same_chars(a: &Vec<char>, b: &Vec<char>) -> (same: bool)
    ensures
        same == (a@ == b@),
{
    if a.len() != b.len() {
        return false;
    }
    let same = occurs_at_index(a, b, 0);
    assert(a@.subrange(0, a.len() as int) =~= a@);
    same
}

/// Whether `a` and `b` are the same text.
pub fn same_text(a: &str, b: &str) -> (same: bool)
    ensures
        same == (a@ == b@),
{
    same_chars(&chars_of(a), &chars_of(b))
}

/// Removes the run of copies of `suffix` at the end of `chars`.
pub fn strip_suffix_run(chars: &mut Vec<char>, suffix: &Vec<char>)
    ensures
        final(chars)@ == without_suffix_run(old(chars)@, suffix@),
{
    if suffix.len() == 0 {
        return ;
    }
    while ends_with_chars(chars, suffix)
        invariant
            suffix.len() > 0,
            without_suffix_run(chars@, suffix@) == without_suffix_run(old(chars)@, suffix@),
        decreases chars.len(),
    {
        let kept: usize = chars.len() - suffix.len();
        chars.truncate(kept);
    }
}

/// Appends `s` to `out`, with `with` in place of each `c`.
pub fn push_replaced(out: &mut Vec<char>, s: &Vec<char>, c: char, with: &Vec<char>)
    ensures
        final(out)@ == old(out)@ + replaced(s@, c, with@),
{
    let mut i: usize = 0;
    while i < s.len()
        invariant
            i <= s.len(),
            out@ == old(out)@ + replaced(s@.take(i as int), c, with@),
        decreases s.len() - i,
    {
        let ghost before = out@;
        assert(s@.take(i + 1).drop_last() =~= s@.take(i as int));
        if s[i] == c {
            let mut j: usize = 0;
            while j < with.len()
                invariant
                    j <= with.len(),
                    out@ == before + with@.take(j as int),
                decreases with.len() - j,
            {
                out.push(with[j]);
                j = j + 1;
            }
        } else {
            out.push(s[i]);
        }
        i = i + 1;
    }
    assert(s@.take(s.len() as int) =~= s@);
}

/// What stands in `s` from position `from` up to the first `c` at or after
/// it; nothing where `from` lies beyond the end.
pub open spec fn segment(s: Seq<char>, from: int, c: char) -> Seq<char> {
    if 0 <= from <= s.len() {
        up_to(s.skip(from), c)
    } else {
        Seq::empty()
    }
}

/// The characters of `chars` from `from` up to the first `c` at or after
/// `from`.
pub fn segment_from(chars: &Vec<char>, from: usize, c: char) -> (found: Vec<char>)
    ensures
        found@ == segment(chars@, from as int, c),
{
    let mut found: Vec<char> = Vec::new();
    if from > chars.len() {
        return found;
    }
    let mut i: usize = from;
    let ghost rest = chars@.skip(from as int);
    proof {
        lemma_first_index_of(rest, c);
    }
    while i < chars.len() && chars[i] != c
        invariant
            from <= i <= chars.len(),
            rest == chars@.skip(from as int),
            i - from <= first_index_of(rest, c) <= rest.len(),
            forall|k: int| 0 <= k < first_index_of(rest, c) ==> rest[k] != c,
            first_index_of(rest, c) < rest.len() ==> rest[first_index_of(rest, c)] == c,
            found@ == rest.take(i - from),
        decreases chars.len() - i,
    {
        found.push(chars[i]);
        i = i + 1;
    }
    proof {
        if i < chars.len() {
            assert(rest[i - from] == chars[i as int]);
        }
    }
    found
}

/// The number that `text` spells in base ten, held at the largest `u64`;
/// nothing where `text` is empty or holds anything but ASCII digits.
pub fn parse_decimal(text: &str) -> (value: Option<u64>)
    ensures
        value is Some <==> decimal_value(text@) is Some,
        value matches Some(v) ==> v == saturated(decimal_value(text@)->0),
{
    let chars = chars_of(text);
    if chars.len() == 0 {
        return None;
    }
    let mut total: u64 = 0;
    let mut i: usize = 0;
    while i < chars.len()
        invariant
            i <= chars.len(),
            chars@ == text@,
            all_digits(chars@.take(i as int)),
            total == saturated(digits_value(chars@.take(i as int))),
        decreases chars.len() - i,
    {
        let c = chars[i];
        if !(c >= '0' && c <= '9') {
            return None;
        }
        let d: u64 = (c as u32 - '0' as u32) as u64;
        assert(chars@.take(i + 1).drop_last() =~= chars@.take(i as int));
        total = match total.checked_mul(10) {
            Some(scaled) => match scaled.checked_add(d) {
                Some(sum) => sum,
                None => u64::MAX,
            },
            None => u64::MAX,
        };
        i = i + 1;
    }
    assert(chars@.take(chars@.len() as int) == chars@);
    Some(total)
}

/// Appends to `out` the digits that spell `n` in base ten.
pub fn push_decimal(out: &mut Vec<char>, n: u64)
    ensures
        final(out)@ == old(out)@ + decimal_digits(n as nat),
    decreases n,
{
    if n >= 10 {
        push_decimal(out, n / 10);
    }
    let d: u8 = (n % 10) as u8;
    out.push((d + 48u8) as char);
}

} // verus!
