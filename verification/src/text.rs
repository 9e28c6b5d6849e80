//! Small verified text kernel: decimal rendering of integers, decimal
//! parsing, substring search, and a trusted single-character append.
//!
//! Every string the library builds (archive paths, CSV rows, JSON
//! documents, routes) goes through these functions, so their contracts
//! are stated over `Seq<char>` views and exact spec-level renderings.

use vstd::prelude::*;

verus! {

/// Relies on `String::push`: appends the given `char` to the end of the string.
#[verifier::external_body]
pub fn push_char(s: &mut String, c: char)
    ensures
        final(s)@ == old(s)@.push(c),
{
    s.push(c);
}

/// The decimal digit character for a value below ten.
pub open spec fn spec_digit(d: nat) -> char
    recommends
        d < 10,
{
    if d == 0 {
        '0'
    } else if d == 1 {
        '1'
    } else if d == 2 {
        '2'
    } else if d == 3 {
        '3'
    } else if d == 4 {
        '4'
    } else if d == 5 {
        '5'
    } else if d == 6 {
        '6'
    } else if d == 7 {
        '7'
    } else if d == 8 {
        '8'
    } else {
        '9'
    }
}

/// Decimal numeral of a natural number, most significant digit first,
/// with no leading zeros (`0` renders as `"0"`).
pub open spec fn spec_dec(n: nat) -> Seq<char>
    decreases n,
{
    if n < 10 {
        seq![spec_digit(n)]
    } else {
        spec_dec(n / 10) + seq![spec_digit(n % 10)]
    }
}

/// Decimal rendering of a signed value: a `-` sign followed by the
/// numeral of the magnitude, or the bare numeral when non-negative.
pub open spec fn spec_dec_int(n: int) -> Seq<char> {
    if n < 0 {
        seq!['-'] + spec_dec((-n) as nat)
    } else {
        spec_dec(n as nat)
    }
}

/// The one-character string of a decimal digit.
pub fn digit_str(d: u64) -> (r: &'static str)
    requires
        d < 10,
    ensures
        r@ == seq![spec_digit(d as nat)],
{
    proof {
        reveal_strlit("0");
        reveal_strlit("1");
        reveal_strlit("2");
        reveal_strlit("3");
        reveal_strlit("4");
        reveal_strlit("5");
        reveal_strlit("6");
        reveal_strlit("7");
        reveal_strlit("8");
        reveal_strlit("9");
    }
    match d {
        0 => "0",
        1 => "1",
        2 => "2",
        3 => "3",
        4 => "4",
        5 => "5",
        6 => "6",
        7 => "7",
        8 => "8",
        _ => "9",
    }
}

/// Renders an unsigned value as its decimal numeral.
pub fn u64_to_string(n: u64) -> (r: String)
    ensures
        r@ == spec_dec(n as nat),
    decreases n,
{
    if n < 10 {
        let mut s = String::new();
        s.append(digit_str(n));
        s
    } else {
        let mut s = u64_to_string(n / 10);
        s.append(digit_str(n % 10));
        s
    }
}

/// Renders a signed value as its decimal numeral with an optional sign.
pub fn i64_to_string(n: i64) -> (r: String)
    ensures
        r@ == spec_dec_int(n as int),
{
    if n >= 0 {
        u64_to_string(n as u64)
    } else {
        let mag: u64 = ((-(n + 1)) as u64) + 1;
        assert(mag as int == -(n as int));
        let mut s = String::new();
        proof {
            reveal_strlit("-");
        }
        s.append("-");
        let digits = u64_to_string(mag);
        s.append(digits.as_str());
        s
    }
}

pub fn usize_to_string(n: usize) -> (r: String)
    ensures
        r@ == spec_dec(n as nat),
{
    u64_to_string(n as u64)
}

pub fn u32_to_string(n: u32) -> (r: String)
    ensures
        r@ == spec_dec(n as nat),
{
    u64_to_string(n as u64)
}

pub fn i32_to_string(n: i32) -> (r: String)
    ensures
        r@ == spec_dec_int(n as int),
{
    i64_to_string(n as i64)
}

/// The numeral is injective: distinct naturals render differently.
pub proof fn lemma_dec_injective(a: nat, b: nat)
    requires
        a != b,
    ensures
        spec_dec(a) != spec_dec(b),
    decreases a + b,
{
    if a < 10 && b < 10 {
        assert(spec_dec(a)[0] == spec_digit(a));
        assert(spec_dec(b)[0] == spec_digit(b));
    } else if a < 10 {
        assert(spec_dec(b).len() == spec_dec(b / 10).len() + 1);
        lemma_dec_len_ge_two(b);
    } else if b < 10 {
        lemma_dec_len_ge_two(a);
    } else {
        if a / 10 == b / 10 {
            assert(a % 10 != b % 10) by {
                assert(a == 10 * (a / 10) + a % 10);
                assert(b == 10 * (b / 10) + b % 10);
            };
            assert(spec_dec(a).last() == spec_digit(a % 10));
            assert(spec_dec(b).last() == spec_digit(b % 10));
        } else {
            lemma_dec_injective(a / 10, b / 10);
            if spec_dec(a).len() != spec_dec(b).len() {
            } else {
                assert(spec_dec(a / 10) =~= spec_dec(a).drop_last());
                assert(spec_dec(b / 10) =~= spec_dec(b).drop_last());
            }
        }
    }
}

proof fn lemma_dec_len_ge_two(n: nat)
    requires
        n >= 10,
    ensures
        spec_dec(n).len() >= 2,
{
    lemma_first_char_is_digit(n / 10);
    assert(spec_dec(n) == spec_dec(n / 10) + seq![spec_digit(n % 10)]);
}

/// Signed rendering is injective as well: the sign character is never a
/// digit, so negative and non-negative renderings cannot collide.
pub proof fn lemma_dec_int_injective(a: int, b: int)
    requires
        a != b,
    ensures
        spec_dec_int(a) != spec_dec_int(b),
{
    if a < 0 && b < 0 {
        lemma_dec_injective((-a) as nat, (-b) as nat);
        if spec_dec_int(a) == spec_dec_int(b) {
            assert(spec_dec_int(a).skip(1) =~= spec_dec((-a) as nat));
            assert(spec_dec_int(b).skip(1) =~= spec_dec((-b) as nat));
        }
    } else if a >= 0 && b >= 0 {
        lemma_dec_injective(a as nat, b as nat);
    } else if a < 0 {
        lemma_first_char_is_digit(b as nat);
        assert(spec_dec_int(a)[0] == '-');
    } else {
        lemma_first_char_is_digit(a as nat);
        assert(spec_dec_int(b)[0] == '-');
    }
}

proof fn lemma_first_char_is_digit(n: nat)
    ensures
        spec_dec(n).len() >= 1,
        spec_dec(n)[0] != '-',
    decreases n,
{
    if n < 10 {
    } else {
        lemma_first_char_is_digit(n / 10);
        assert(spec_dec(n)[0] == spec_dec(n / 10)[0]);
    }
}

/// Whether a character is a decimal digit.
pub open spec fn spec_is_digit(c: char) -> bool {
    48 <= c as u32 <= 57
}

/// The numeric value of a digit character.
pub open spec fn spec_digit_val(c: char) -> nat
    recommends
        spec_is_digit(c),
{
    (c as u32 - 48) as nat
}

pub open spec fn spec_all_digits(s: Seq<char>) -> bool {
    forall|i: int| 0 <= i < s.len() ==> spec_is_digit(#[trigger] s[i])
}

/// The value of a string of digit characters read as a decimal numeral.
pub open spec fn spec_dec_val(s: Seq<char>) -> nat
    decreases s.len(),
{
    if s.len() == 0 {
        0
    } else {
        spec_dec_val(s.drop_last()) * 10 + spec_digit_val(s.last())
    }
}

/// An integer numeral as accepted here: an optional `+` or `-` sign
/// followed by at least one digit, and nothing else.
pub open spec fn spec_int_numeral(s: Seq<char>) -> bool {
    if s.len() == 0 {
        false
    } else if s[0] == '-' || s[0] == '+' {
        s.len() > 1 && spec_all_digits(s.skip(1))
    } else {
        spec_all_digits(s)
    }
}

/// The value denoted by an integer numeral.
pub open spec fn spec_int_val(s: Seq<char>) -> int
    recommends
        spec_int_numeral(s),
{
    if s.len() > 0 && s[0] == '-' {
        -(spec_dec_val(s.skip(1)) as int)
    } else if s.len() > 0 && s[0] == '+' {
        spec_dec_val(s.skip(1)) as int
    } else {
        spec_dec_val(s) as int
    }
}

/// Appending digits never shrinks the value of a numeral.
proof fn lemma_dec_val_prefix_le(s: Seq<char>, k: int)
    requires
        0 <= k <= s.len(),
    ensures
        spec_dec_val(s.take(k)) <= spec_dec_val(s),
    decreases s.len() - k,
{
    if k < s.len() {
        lemma_dec_val_prefix_le(s, k + 1);
        assert(s.take(k + 1).drop_last() =~= s.take(k));
        assert(spec_dec_val(s.take(k + 1)) == spec_dec_val(s.take(k)) * 10 + spec_digit_val(
            s.take(k + 1).last(),
        ));
    } else {
        assert(s.take(k) =~= s);
    }
}

/// Parses a digit string, accumulating its value while it still fits in
/// the magnitude bound of an `i32` (the bound is `2^31`, which covers the
/// most negative value).
fn parse_magnitude(s: &str, start: usize, len: usize) -> (r: Option<u64>)
    requires
        start < len,
        len == s@.len(),
        spec_all_digits(s@.skip(start as int)),
    ensures
        match r {
            Some(v) => v == spec_dec_val(s@.skip(start as int)) && v <= 0x8000_0000,
            None => spec_dec_val(s@.skip(start as int)) > 0x8000_0000,
        },
{
    let ghost digits = s@.skip(start as int);
    let mut acc: u64 = 0;
    let mut i: usize = start;
    while i < len
        invariant
            start <= i <= len,
            len == s@.len(),
            spec_all_digits(digits),
            digits == s@.skip(start as int),
            acc == spec_dec_val(digits.take(i - start)),
            acc <= 0x8000_0000,
        decreases len - i,
    {
        let c = s.get_char(i);
        assert(c == digits[i - start]);
        let u = c as u32;
        if u < 48 || u > 57 {
            proof {
                assert(spec_is_digit(digits[i - start]));
            }
            assert(false);
        }
        let d: u64 = (u - 48) as u64;
        let next: u64 = acc * 10 + d;
        proof {
            assert(digits.take(i - start + 1).drop_last() =~= digits.take(i - start));
            assert(digits.take(i - start + 1).last() == digits[i - start]);
        }
        if next > 0x8000_0000 {
            proof {
                lemma_dec_val_prefix_le(digits, i - start + 1);
            }
            return None;
        }
        acc = next;
        i += 1;
    }
    proof {
        assert(digits.take(len - start) =~= digits);
    }
    Some(acc)
}

/// Parses an optionally signed decimal numeral as an `i32`, as the
/// standard library's integer parsing does: `Some` exactly when the text
/// is a well-formed numeral whose value fits.
pub fn parse_i32(s: &str) -> (r: Option<i32>)
    ensures
        match r {
            Some(v) => spec_int_numeral(s@) && v as int == spec_int_val(s@)
                && i32::MIN <= spec_int_val(s@) <= i32::MAX,
            None => !(spec_int_numeral(s@) && i32::MIN <= spec_int_val(s@) <= i32::MAX),
        },
{
    let len = s.unicode_len();
    if len == 0 {
        return None;
    }
    let first = s.get_char(0);
    let negative = first == '-';
    let has_sign = negative || first == '+';
    let start: usize = if has_sign {
        1
    } else {
        0
    };
    if start >= len {
        return None;
    }
    // every remaining character must be a digit, else this is no numeral
    let mut i: usize = start;
    while i < len
        invariant
            start <= i <= len,
            start < len,
            len == s@.len(),
            negative == (s@[0] == '-'),
            has_sign == (s@[0] == '-' || s@[0] == '+'),
            start == if has_sign {
                1int
            } else {
                0int
            },
            forall|j: int| start <= j < i ==> spec_is_digit(#[trigger] s@[j]),
        decreases len - i,
    {
        let c = s.get_char(i);
        let u = c as u32;
        if u < 48 || u > 57 {
            assert(!spec_all_digits(s@.skip(start as int))) by {
                assert(s@.skip(start as int)[i - start] == s@[i as int]);
            };
            proof {
                if !has_sign {
                    assert(s@.skip(0) =~= s@);
                    assert(!spec_all_digits(s@));
                } else {
                    assert(start == 1);
                    assert(!spec_all_digits(s@.skip(1)));
                }
                assert(!spec_int_numeral(s@));
            }
            return None;
        }
        i += 1;
    }
    assert(spec_all_digits(s@.skip(start as int))) by {
        assert(forall|j: int| 0 <= j < s@.skip(start as int).len() ==> s@.skip(start as int)[j]
            == s@[j + start]);
    };
    proof {
        if !has_sign {
            assert(s@.skip(0) =~= s@);
            assert(spec_is_digit(s@[0]));
            assert('-' as u32 == 45 && '+' as u32 == 43);
            assert(s@[0] != '-' && s@[0] != '+');
        }
        assert(spec_int_numeral(s@));
        if negative {
            assert(spec_int_val(s@) == -(spec_dec_val(s@.skip(start as int)) as int));
        } else {
            assert(spec_int_val(s@) == spec_dec_val(s@.skip(start as int)) as int);
        }
    }
    let mag = match parse_magnitude(s, start, len) {
        Some(m) => m,
        None => {
            // the magnitude alone already exceeds 2^31, so the value is out
            // of range whatever the sign
            return None;
        },
    };
    if negative {
        let v: i64 = -(mag as i64);
        Some(v as i32)
    } else {
        if mag > 2147483647 {
            return None;
        }
        Some(mag as i32)
    }
}

/// Whether `needle` occurs contiguously inside `hay`.
pub open spec fn spec_has_substr(hay: Seq<char>, needle: Seq<char>) -> bool {
    exists|i: int|
        0 <= i && i + needle.len() <= hay.len() && #[trigger] hay.subrange(i, i + needle.len())
            == needle
}

/// Whether the character occurs in the string.
pub open spec fn spec_has_char(s: Seq<char>, c: char) -> bool {
    exists|i: int| 0 <= i < s.len() && s[i] == c
}

fn match_at(hay: &str, needle: &str, at: usize, hay_len: usize, needle_len: usize) -> (r: bool)
    requires
        hay_len == hay@.len(),
        needle_len == needle@.len(),
        at + needle_len <= hay_len,
    ensures
        r == (hay@.subrange(at as int, at + needle@.len()) == needle@),
{
    let mut j: usize = 0;
    while j < needle_len
        invariant
            0 <= j <= needle_len,
            hay_len == hay@.len(),
            needle_len == needle@.len(),
            at + needle_len <= hay_len,
            forall|k: int| 0 <= k < j ==> hay@[at + k] == needle@[k],
        decreases needle_len - j,
    {
        let hc = hay.get_char(at + j);
        let nc = needle.get_char(j);
        if hc != nc {
            assert(hay@.subrange(at as int, at + needle@.len())[j as int] == hay@[at + j]);
            return false;
        }
        j += 1;
    }
    assert(hay@.subrange(at as int, at + needle@.len()) =~= needle@);
    true
}

/// Substring search: true exactly when `needle` occurs in `hay`.
pub fn contains_str(hay: &str, needle: &str) -> (r: bool)
    ensures
        r == spec_has_substr(hay@, needle@),
{
    let hay_len = hay.unicode_len();
    let needle_len = needle.unicode_len();
    if needle_len > hay_len {
        assert(!spec_has_substr(hay@, needle@));
        return false;
    }
    let limit = hay_len - needle_len;
    let mut i: usize = 0;
    loop
        invariant_except_break
            0 <= i <= limit,
            limit == hay_len - needle_len,
            hay_len == hay@.len(),
            needle_len == needle@.len(),
            needle_len <= hay_len,
            forall|k: int|
                0 <= k < i ==> #[trigger] hay@.subrange(k, k + needle@.len()) != needle@,
        ensures
            forall|k: int|
                0 <= k && k + needle@.len() <= hay@.len() ==> #[trigger] hay@.subrange(
                    k,
                    k + needle@.len(),
                ) != needle@,
        decreases limit - i,
    {
        if match_at(hay, needle, i, hay_len, needle_len) {
            assert(spec_has_substr(hay@, needle@));
            return true;
        }
        if i == limit {
            break;
        }
        i += 1;
    }
    false
}

/// Character search: true exactly when `c` occurs in `s`.
pub fn contains_char(s: &str, c: char) -> (r: bool)
    ensures
        r == spec_has_char(s@, c),
{
    let len = s.unicode_len();
    let mut i: usize = 0;
    while i < len
        invariant
            0 <= i <= len,
            len == s@.len(),
            forall|k: int| 0 <= k < i ==> s@[k] != c,
        decreases len - i,
    {
        if s.get_char(i) == c {
            return true;
        }
        i += 1;
    }
    false
}

/// Whether `needle` occurs in `hay` starting exactly at `i`.
pub open spec fn spec_match_at(hay: Seq<char>, needle: Seq<char>, i: int) -> bool {
    0 <= i && i + needle.len() <= hay.len() && hay.subrange(i, i + needle.len()) == needle
}

/// Index of the first occurrence of `needle` at or after `from`.
pub open spec fn spec_find_from(hay: Seq<char>, needle: Seq<char>, from: int) -> Option<int>
    recommends
        0 <= from,
    decreases hay.len() - from
        when 0 <= from <= hay.len()
{
    if from + needle.len() > hay.len() {
        Option::None
    } else if spec_match_at(hay, needle, from) {
        Option::Some(from)
    } else if from < hay.len() {
        spec_find_from(hay, needle, from + 1)
    } else {
        Option::None
    }
}

/// Index of the first occurrence of `needle` in `hay`, if any.
pub open spec fn spec_find(hay: Seq<char>, needle: Seq<char>) -> Option<int> {
    spec_find_from(hay, needle, 0)
}

/// Finds the first occurrence of `needle` in `hay`.
pub fn find_str(hay: &str, needle: &str) -> (r: Option<usize>)
    ensures
        match r {
            Some(i) => spec_find(hay@, needle@) == Option::Some(i as int) && spec_match_at(
                hay@,
                needle@,
                i as int,
            ),
            None => spec_find(hay@, needle@) == Option::<int>::None,
        },
{
    let hay_len = hay.unicode_len();
    let needle_len = needle.unicode_len();
    if needle_len > hay_len {
        return None;
    }
    let limit = hay_len - needle_len;
    let mut i: usize = 0;
    loop
        invariant_except_break
            0 <= i <= limit,
            limit == hay_len - needle_len,
            hay_len == hay@.len(),
            needle_len == needle@.len(),
            needle_len <= hay_len,
            spec_find(hay@, needle@) == spec_find_from(hay@, needle@, i as int),
        ensures
            spec_find(hay@, needle@) == Option::<int>::None,
        decreases limit - i,
    {
        if match_at(hay, needle, i, hay_len, needle_len) {
            return Some(i);
        }
        if i == limit {
            proof {
                if (i as int) < hay@.len() {
                    assert(spec_find_from(hay@, needle@, i + 1) == Option::<int>::None);
                }
            }
            break;
        }
        i += 1;
    }
    None
}

/// A found index is a real occurrence within bounds.
pub proof fn lemma_find_from_bounds(hay: Seq<char>, needle: Seq<char>, from: int, i: int)
    requires
        0 <= from <= hay.len(),
        spec_find_from(hay, needle, from) == Option::Some(i),
    ensures
        from <= i,
        spec_match_at(hay, needle, i),
    decreases hay.len() - from,
{
    if from + needle.len() > hay.len() {
    } else if spec_match_at(hay, needle, from) {
    } else if from < hay.len() {
        lemma_find_from_bounds(hay, needle, from + 1, i);
    }
}

/// `needle` replaced by `val` at its first occurrence in `s`; `s` itself
/// when it does not occur.
pub open spec fn spec_replace_first(s: Seq<char>, needle: Seq<char>, val: Seq<char>) -> Seq<char> {
    match spec_find(s, needle) {
        Option::Some(i) => s.take(i) + val + s.skip(i + needle.len()),
        Option::None => s,
    }
}

/// Replaces the first occurrence of `needle` in `s` by `val`.
pub fn replace_first(s: &str, needle: &str, val: &str) -> (r: String)
    ensures
        r@ == spec_replace_first(s@, needle@, val@),
{
    let s_len = s.unicode_len();
    let needle_len = needle.unicode_len();
    match find_str(s, needle) {
        Some(i) => {
            let mut out = String::new();
            let prefix = s.substring_char(0, i);
            out.append(prefix);
            out.append(val);
            let suffix = s.substring_char(i + needle_len, s_len);
            out.append(suffix);
            proof {
                assert(s@.subrange(0, i as int) =~= s@.take(i as int));
                assert(s@.subrange(i + needle@.len(), s@.len() as int) =~= s@.skip(
                    i + needle@.len(),
                ));
            }
            out
        },
        None => {
            let mut out = String::new();
            out.append(s);
            out
        },
    }
}

/// The comma-separated pieces of a string: splitting at every comma; a
/// string without commas is one piece, and the empty string one empty
/// piece.
pub open spec fn spec_split_commas(s: Seq<char>) -> Seq<Seq<char>>
    decreases s.len(),
    via spec_split_commas_decreases
{
    match spec_find(s, seq![',']) {
        Option::Some(i) => seq![s.take(i)] + spec_split_commas(s.skip(i + 1)),
        Option::None => seq![s],
    }
}

#[via_fn]
proof fn spec_split_commas_decreases(s: Seq<char>) {
    match spec_find(s, seq![',']) {
        Option::Some(i) => {
            lemma_find_from_bounds(s, seq![','], 0, i);
        },
        Option::None => {},
    }
}

/// Splits a string at every comma.
pub fn split_commas(s: &str) -> (r: Vec<String>)
    ensures
        r@.map_values(|p: String| p@) == spec_split_commas(s@),
    decreases s@.len(),
{
    proof {
        reveal_strlit(",");
        assert(","@ =~= seq![',']);
    }
    let len = s.unicode_len();
    match find_str(s, ",") {
        Some(i) => {
            let head = s.substring_char(0, i).to_owned();
            let tail = s.substring_char(i + 1, len);
            proof {
                assert(tail@ =~= s@.skip(i + 1));
                assert(head@ =~= s@.take(i as int));
            }
            let mut rest = split_commas(tail);
            let ghost rest_before = rest@;
            let ghost head_snapshot = head;
            rest.insert(0, head);
            proof {
                rest_before.insert_ensures(0, head_snapshot);
                assert(rest@.map_values(|p: String| p@) =~~= seq![s@.take(i as int)]
                    + spec_split_commas(s@.skip(i + 1)));
            }
            rest
        },
        None => {
            let mut out: Vec<String> = Vec::new();
            out.push(s.to_owned());
            proof {
                assert(out@.map_values(|p: String| p@) =~~= seq![s@]);
            }
            out
        },
    }
}

/// Character-wise string equality.
pub fn str_eq(a: &str, b: &str) -> (r: bool)
    ensures
        r == (a@ == b@),
{
    let a_len = a.unicode_len();
    let b_len = b.unicode_len();
    if a_len != b_len {
        return false;
    }
    let mut i: usize = 0;
    while i < a_len
        invariant
            0 <= i <= a_len,
            a_len == a@.len(),
            a_len == b@.len(),
            forall|k: int| 0 <= k < i ==> a@[k] == b@[k],
        decreases a_len - i,
    {
        if a.get_char(i) != b.get_char(i) {
            assert(a@ != b@);
            return false;
        }
        i += 1;
    }
    assert(a@ =~= b@);
    true
}

} // verus!
