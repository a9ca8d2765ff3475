//! Byte strings: the engine speaks in lines of ASCII text, and everything the
//! protocol reads or writes is handled as bytes.

use vstd::prelude::*;
use vstd::slice::{slice_subrange, slice_to_vec};
use vstd::string::{is_ascii, is_ascii_spec_bytes};

verus! {

/// The bytes of an ASCII text, one byte for each character.
pub open spec fn ascii(chars: Seq<char>) -> Seq<u8> {
    Seq::new(chars.len(), |i: int| chars[i] as u8)
}

/// The bytes of an ASCII string literal.
pub fn literal(text: &'static str) -> (bytes: &'static [u8])
    requires
        is_ascii(text),
    ensures
        bytes@ == ascii(text@),
{
    proof {
        is_ascii_spec_bytes(text);
    }
    let bytes = text.as_bytes();
    assert(bytes@ =~= ascii(text@));
    bytes
}

/// Space, tab, line feed, vertical tab, form feed and carriage return.
pub open spec fn is_space(b: u8) -> bool {
    b == 32 || (9 <= b && b <= 13)
}

/// Whether `b` separates tokens.
pub fn is_space_byte(b: u8) -> (r: bool)
    ensures
        r == is_space(b),
{
    b == 32 || (9 <= b && b <= 13)
}

/// `pattern` stands in `text` at index `at`.
pub open spec fn occurs_at(text: Seq<u8>, pattern: Seq<u8>, at: int) -> bool {
    0 <= at && at + pattern.len() <= text.len() && text.subrange(at, at + pattern.len())
        == pattern
}

/// `text` begins with `prefix`.
pub open spec fn starts_with(text: Seq<u8>, prefix: Seq<u8>) -> bool {
    occurs_at(text, prefix, 0)
}

/// `pattern` stands somewhere in `text`.
pub open spec fn contains(text: Seq<u8>, pattern: Seq<u8>) -> bool {
    exists|at: int| occurs_at(text, pattern, at)
}

/// Compares `pattern` with the bytes of `text` from `at` on.
pub fn matches_at(text: &[u8], pattern: &[u8], at: usize) -> (r: bool)
    ensures
        r == occurs_at(text@, pattern@, at as int),
{
    if at > text.len() || pattern.len() > text.len() - at {
        return false;
    }
    let mut k: usize = 0;
    while k < pattern.len()
        invariant
            at + pattern.len() <= text.len(),
            k <= pattern.len(),
            forall|j: int| 0 <= j < k ==> text@[at + j] == pattern@[j],
        decreases pattern.len() - k,
    {
        if text[at + k] != pattern[k] {
            assert(text@.subrange(at as int, at + pattern.len())[k as int] == text@[at + k]);
            return false;
        }
        k += 1;
    }
    assert(text@.subrange(at as int, at + pattern.len()) =~= pattern@);
    true
}

/// Whether `text` begins with `prefix`.
pub fn has_prefix(text: &[u8], prefix: &[u8]) -> (r: bool)
    ensures
        r == starts_with(text@, prefix@),
{
    matches_at(text, prefix, 0)
}

/// Whether `pattern` stands somewhere in `text`.
pub fn has_infix(text: &[u8], pattern: &[u8]) -> (r: bool)
    ensures
        r == contains(text@, pattern@),
{
    if pattern.len() > text.len() {
        return false;
    }
    let last: usize = text.len() - pattern.len();
    let mut at: usize = 0;
    loop
        invariant
            last == text.len() - pattern.len(),
            at <= last,
            forall|j: int| 0 <= j < at ==> !occurs_at(text@, pattern@, j),
        decreases last - at,
    {
        if matches_at(text, pattern, at) {
            return true;
        }
        if at == last {
            return false;
        }
        at += 1;
    }
}

/// Whether two byte strings are the same.
pub fn same_bytes(a: &[u8], b: &[u8]) -> (r: bool)
    ensures
        r == (a@ == b@),
{
    if a.len() != b.len() {
        return false;
    }
    let r = matches_at(a, b, 0);
    assert(a@.subrange(0, a@.len() as int) =~= a@);
    r
}

/// The first index from `from` on that holds `byte`, or the length of `text`.
pub open spec fn index_of(text: Seq<u8>, byte: u8, from: int) -> int
    decreases text.len() - from,
{
    if 0 <= from < text.len() && text[from] != byte {
        index_of(text, byte, from + 1)
    } else {
        from
    }
}

/// Finds the first `byte` of `text`.
pub fn find_byte(text: &[u8], byte: u8) -> (at: usize)
    ensures
        at == index_of(text@, byte, 0),
        at <= text.len(),
        at < text.len() ==> text@[at as int] == byte,
        forall|j: int| 0 <= j < at ==> text@[j] != byte,
{
    let mut at: usize = 0;
    while at < text.len() && text[at] != byte
        invariant
            at <= text.len(),
            index_of(text@, byte, at as int) == index_of(text@, byte, 0),
            forall|j: int| 0 <= j < at ==> text@[j] != byte,
        decreases text.len() - at,
    {
        at += 1;
    }
    at
}

/// The end of the run of separators that begins at `from`.
pub open spec fn skip_spaces(text: Seq<u8>, from: int) -> int
    decreases text.len() - from,
{
    if 0 <= from < text.len() && is_space(text[from]) {
        skip_spaces(text, from + 1)
    } else {
        from
    }
}

/// The end of the token that begins at `from`.
pub open spec fn skip_token(text: Seq<u8>, from: int) -> int
    decreases text.len() - from,
{
    if 0 <= from < text.len() && !is_space(text[from]) {
        skip_token(text, from + 1)
    } else {
        from
    }
}

/// `skip_spaces` stops inside the text, on a byte that is no separator.
pub proof fn lemma_skip_spaces(text: Seq<u8>, from: int)
    requires
        0 <= from <= text.len(),
    ensures
        from <= skip_spaces(text, from) <= text.len(),
        skip_spaces(text, from) < text.len() ==> !is_space(text[skip_spaces(text, from)]),
    decreases text.len() - from,
{
    if from < text.len() && is_space(text[from]) {
        lemma_skip_spaces(text, from + 1);
    }
}

/// `skip_token` stops inside the text, and passes at least one byte of a token.
pub proof fn lemma_skip_token(text: Seq<u8>, from: int)
    requires
        0 <= from <= text.len(),
    ensures
        from <= skip_token(text, from) <= text.len(),
        from < text.len() && !is_space(text[from]) ==> from < skip_token(text, from),
    decreases text.len() - from,
{
    if from < text.len() && !is_space(text[from]) {
        lemma_skip_token(text, from + 1);
    }
}

/// The tokens of `text` from index `from` on: the maximal runs of bytes that
/// hold no separator, in order.
pub open spec fn tokens_from(text: Seq<u8>, from: int) -> Seq<Seq<u8>>
    decreases text.len() - from,
{
    let start = skip_spaces(text, from);
    let end = skip_token(text, start);
    if 0 <= from <= text.len() && start < text.len() {
        proof {
            lemma_skip_spaces(text, from);
            lemma_skip_token(text, start);
        }
        seq![text.subrange(start, end)] + tokens_from(text, end)
    } else {
        Seq::empty()
    }
}

/// The whitespace-separated tokens of `text`.
pub open spec fn tokens(text: Seq<u8>) -> Seq<Seq<u8>> {
    tokens_from(text, 0)
}

/// What a list of byte vectors holds.
pub open spec fn views(items: Seq<Vec<u8>>) -> Seq<Seq<u8>> {
    Seq::new(items.len(), |i: int| items[i]@)
}

/// Splits a line into its whitespace-separated tokens.
pub fn split_tokens(line: &[u8]) -> (out: Vec<Vec<u8>>)
    ensures
        views(out@) == tokens(line@),
{
    let mut out: Vec<Vec<u8>> = Vec::new();
    let mut at: usize = 0;
    assert(views(out@) + tokens_from(line@, 0) =~= tokens(line@));
    loop
        invariant
            at <= line.len(),
            views(out@) + tokens_from(line@, at as int) == tokens(line@),
        ensures
            views(out@) == tokens(line@),
        decreases line.len() - at,
    {
        let ghost from: int = at as int;
        while at < line.len() && is_space_byte(line[at])
            invariant
                from <= at <= line.len(),
                skip_spaces(line@, at as int) == skip_spaces(line@, from),
            decreases line.len() - at,
        {
            at += 1;
        }
        if at >= line.len() {
            assert(views(out@) + Seq::<Seq<u8>>::empty() =~= views(out@));
            break ;
        }
        let start: usize = at;
        while at < line.len() && !is_space_byte(line[at])
            invariant
                start <= at <= line.len(),
                skip_token(line@, at as int) == skip_token(line@, start as int),
            decreases line.len() - at,
        {
            at += 1;
        }
        proof {
            lemma_skip_token(line@, start as int);
        }
        let token: Vec<u8> = slice_to_vec(slice_subrange(line, start, at));
        let ghost before: Seq<Vec<u8>> = out@;
        out.push(token);
        assert(views(out@) =~= views(before) + seq![line@.subrange(start as int, at as int)]);
        assert(views(out@) + tokens_from(line@, at as int) =~= views(before) + tokens_from(
            line@,
            from,
        ));
    }
    out
}

/// `'0'` to `'9'`.
pub open spec fn is_digit(b: u8) -> bool {
    48 <= b && b <= 57
}

/// Every byte is a decimal digit.
pub open spec fn all_digits(text: Seq<u8>) -> bool {
    forall|i: int| 0 <= i < text.len() ==> is_digit(#[trigger] text[i])
}

/// The number that a run of decimal digits writes; leading zeros count for nothing.
pub open spec fn decimal_value(digits: Seq<u8>) -> nat
    decreases digits.len(),
{
    if digits.len() == 0 {
        0
    } else {
        decimal_value(digits.drop_last()) * 10 + (digits.last() - 48) as nat
    }
}

/// The integer that `text` writes: an optional `+` or `-`, then at least one
/// decimal digit and nothing else.
pub open spec fn signed_decimal(text: Seq<u8>) -> Option<int> {
    let signed = text.len() > 0 && (text[0] == 43 || text[0] == 45);
    let digits = if signed {
        text.subrange(1, text.len() as int)
    } else {
        text
    };
    if digits.len() > 0 && all_digits(digits) {
        if signed && text[0] == 45 {
            Some(-(decimal_value(digits) as int))
        } else {
            Some(decimal_value(digits) as int)
        }
    } else {
        None
    }
}

/// The `i32` that `text` writes, if it writes an integer and that integer fits.
pub open spec fn parsed_i32(text: Seq<u8>) -> Option<i32> {
    match signed_decimal(text) {
        Some(v) => if i32::MIN <= v <= i32::MAX {
            Some(v as i32)
        } else {
            None
        },
        None => None,
    }
}

/// A longer run of digits writes no smaller a number.
pub proof fn lemma_decimal_value_grows(digits: Seq<u8>, n: int)
    requires
        0 <= n <= digits.len(),
        all_digits(digits),
    ensures
        decimal_value(digits.take(n)) <= decimal_value(digits),
    decreases digits.len() - n,
{
    if n < digits.len() {
        let longer = digits.take(n + 1);
        assert(longer.drop_last() =~= digits.take(n));
        assert(is_digit(digits[n]));
        assert(longer.last() == digits[n]);
        lemma_decimal_value_grows(digits, n + 1);
    } else {
        assert(digits.take(n) =~= digits);
    }
}

/// Reads a decimal integer as `i32::from_str` does: sign, digits, range.
pub fn parse_i32(text: &[u8]) -> (r: Option<i32>)
    ensures
        r == parsed_i32(text@),
{
    let n: usize = text.len();
    if n == 0 {
        return None;
    }
    let signed: bool = text[0] == 43 || text[0] == 45;
    let negative: bool = text[0] == 45;
    let first: usize = if signed {
        1
    } else {
        0
    };
    let ghost digits: Seq<u8> = text@.subrange(first as int, n as int);
    assert(!signed ==> digits =~= text@);
    if first == n {
        return None;
    }
    let mut value: i64 = 0;
    let mut at: usize = first;
    assert(digits.take(0) =~= Seq::<u8>::empty());
    while at < n
        invariant
            first <= at <= n,
            0 < n == text.len(),
            signed == (text@[0] == 43 || text@[0] == 45),
            first == if signed { 1int } else { 0int },
            digits == text@.subrange(first as int, n as int),
            !signed ==> digits == text@,
            all_digits(digits.take(at - first)),
            value == decimal_value(digits.take(at - first)),
            0 <= value <= 0x8000_0000,
        decreases n - at,
    {
        let b: u8 = text[at];
        if b < 48 || b > 57 {
            assert(!is_digit(digits[at - first]));
            assert(!all_digits(digits));
            return None;
        }
        let ghost longer = digits.take(at - first + 1);
        assert(longer.drop_last() =~= digits.take(at - first));
        assert(longer.last() == b);
        assert forall|i: int| 0 <= i < longer.len() implies is_digit(#[trigger] longer[i]) by {
            if i < at - first {
                assert(digits.take(at - first)[i] == longer[i]);
            }
        }
        let next: i64 = value * 10 + (b - 48) as i64;
        assert(decimal_value(longer) == next);
        if next > 0x8000_0000 {
            proof {
                if all_digits(digits) {
                    lemma_decimal_value_grows(digits, at - first + 1);
                    assert(decimal_value(digits) > 0x8000_0000);
                }
            }
            return None;
        }
        value = next;
        at += 1;
    }
    assert(digits.take(n - first) =~= digits);
    if negative {
        Some((-value) as i32)
    } else if value > 0x7fff_ffff {
        None
    } else {
        Some(value as i32)
    }
}

/// The decimal digits of `n`, without leading zeros.
pub open spec fn decimal_digits(n: nat) -> Seq<u8>
    decreases n,
{
    if n < 10 {
        seq![(48 + n) as u8]
    } else {
        decimal_digits(n / 10).push((48 + n % 10) as u8)
    }
}

/// Writes `n` in decimal.
pub fn format_u8(n: u8) -> (digits: Vec<u8>)
    ensures
        digits@ == decimal_digits(n as nat),
        parsed_i32(digits@) == Some(n as i32),
{
    let mut digits: Vec<u8> = Vec::new();
    if n >= 100 {
        digits.push(48 + n / 100);
    }
    if n >= 10 {
        digits.push(48 + (n / 10) % 10);
    }
    digits.push(48 + n % 10);
    proof {
        reveal_with_fuel(decimal_digits, 3);
        assert(digits@ =~= decimal_digits(n as nat));
        lemma_decimal_round_trip(n as nat);
        assert(is_digit(digits@[0]));
    }
    digits
}

/// The decimal digits of a number are digits, and they write the number.
pub proof fn lemma_decimal_round_trip(n: nat)
    ensures
        decimal_digits(n).len() > 0,
        all_digits(decimal_digits(n)),
        decimal_value(decimal_digits(n)) == n,
    decreases n,
{
    if n < 10 {
        let d = decimal_digits(n);
        assert(d.drop_last() =~= Seq::<u8>::empty());
        assert(decimal_value(d.drop_last()) == 0);
    } else {
        lemma_decimal_round_trip(n / 10);
        let d = decimal_digits(n);
        assert(d.drop_last() =~= decimal_digits(n / 10));
    }
}

} // verus!
