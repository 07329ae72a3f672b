//! String and number helpers shared by the supervisor and the proxy:
//! prefix and substring tests, whitespace trimming, decimal formatting
//! and decimal parsing.

use vstd::prelude::*;

verus! {

pub assume_specification[ String::push ](s: &mut String, c: char)
    ensures
        final(s)@ == old(s)@.push(c),
;

/// `prefix` is an initial segment of `s`.
pub open spec fn spec_starts_with(s: Seq<char>, prefix: Seq<char>) -> bool {
    prefix.len() <= s.len() && s.subrange(0, prefix.len() as int) == prefix
}

/// Prefix test over the character sequences of the two strings.
pub fn starts_with_str(s: &str, prefix: &str) -> (r: bool)
    ensures
        r == spec_starts_with(s@, prefix@),
{
    let n = prefix.unicode_len();
    if n > s.unicode_len() {
        assert(!spec_starts_with(s@, prefix@));
        return false;
    }
    let mut i: usize = 0;
    while i < n
        invariant
            i <= n,
            n == prefix@.len(),
            n <= s@.len(),
            forall|j: int| 0 <= j < i ==> s@[j] == prefix@[j],
        decreases n - i,
    {
        if s.get_char(i) != prefix.get_char(i) {
            assert(s@.subrange(0, n as int)[i as int] != prefix@[i as int]);
            return false;
        }
        i = i + 1;
    }
    assert(s@.subrange(0, n as int) =~= prefix@);
    true
}

/// Character-wise equality of two strings.
pub fn str_eq(a: &str, b: &str) -> (r: bool)
    ensures
        r == (a@ == b@),
{
    if a.unicode_len() != b.unicode_len() {
        return false;
    }
    proof {
        assert(a@.subrange(0, b@.len() as int) =~= a@);
    }
    starts_with_str(a, b)
}

/// `needle` occurs in `s` starting at position `at`.
pub open spec fn spec_match_at(s: Seq<char>, needle: Seq<char>, at: int) -> bool {
    0 <= at && at + needle.len() <= s.len() && s.subrange(at, at + needle.len()) == needle
}

/// `needle` occurs somewhere in `s`.
pub open spec fn spec_contains(s: Seq<char>, needle: Seq<char>) -> bool {
    exists|i: int| spec_match_at(s, needle, i)
}

fn match_at(s: &str, needle: &str, at: usize) -> (r: bool)
    requires
        at + needle@.len() <= s@.len(),
    ensures
        r == spec_match_at(s@, needle@, at as int),
{
    let n = needle.unicode_len();
    let s_len = s.unicode_len();
    let mut i: usize = 0;
    while i < n
        invariant
            i <= n,
            n == needle@.len(),
            s_len == s@.len(),
            at + n <= s_len,
            forall|j: int| 0 <= j < i ==> s@[at + j] == needle@[j],
        decreases n - i,
    {
        if s.get_char(at + i) != needle.get_char(i) {
            assert(s@.subrange(at as int, at + n)[i as int] != needle@[i as int]);
            return false;
        }
        i = i + 1;
    }
    assert(s@.subrange(at as int, at + n) =~= needle@);
    true
}

/// Substring test over the character sequences of the two strings.
pub fn contains_str(s: &str, needle: &str) -> (r: bool)
    ensures
        r == spec_contains(s@, needle@),
{
    let n = needle.unicode_len();
    let len = s.unicode_len();
    if n > len {
        assert(forall|i: int| !spec_match_at(s@, needle@, i));
        return false;
    }
    if n == 0 {
        assert(spec_match_at(s@, needle@, 0)) by {
            assert(s@.subrange(0, 0) =~= needle@);
        }
        return true;
    }
    let mut at: usize = 0;
    while at <= len - n
        invariant
            0 < n <= len,
            n == needle@.len(),
            len == s@.len(),
            at <= len - n + 1,
            forall|i: int| 0 <= i < at ==> !spec_match_at(s@, needle@, i),
        decreases len - at,
    {
        if match_at(s, needle, at) {
            assert(spec_contains(s@, needle@));
            return true;
        }
        at = at + 1;
    }
    assert(forall|i: int| !spec_match_at(s@, needle@, i)) by {
        assert(forall|i: int| i > len - n ==> !spec_match_at(s@, needle@, i));
    }
    false
}

/// `suffix` is a final segment of `s`.
pub open spec fn spec_ends_with(s: Seq<char>, suffix: Seq<char>) -> bool {
    suffix.len() <= s.len() && s.subrange(s.len() - suffix.len(), s.len() as int) == suffix
}

/// Suffix test over the character sequences of the two strings.
pub fn ends_with_str(s: &str, suffix: &str) -> (r: bool)
    ensures
        r == spec_ends_with(s@, suffix@),
{
    let n = suffix.unicode_len();
    let len = s.unicode_len();
    if n > len {
        return false;
    }
    match_at(s, suffix, len - n)
}

/// What parsing `s` as a `bool` yields: exactly "true" or "false".
pub open spec fn spec_parse_bool(s: Seq<char>) -> Option<bool> {
    if s == "true"@ {
        Some(true)
    } else if s == "false"@ {
        Some(false)
    } else {
        None
    }
}

/// Parse "true" or "false", rejecting anything else.
pub fn parse_bool(s: &str) -> (r: Option<bool>)
    ensures
        r == spec_parse_bool(s@),
{
    if str_eq(s, "true") {
        Some(true)
    } else if str_eq(s, "false") {
        Some(false)
    } else {
        None
    }
}

/// The characters treated as whitespace when a PID file is trimmed.
pub open spec fn spec_is_space(c: char) -> bool {
    c == ' ' || c == '\t' || c == '\n' || c == '\r'
}

fn is_space(c: char) -> (r: bool)
    ensures
        r == spec_is_space(c),
{
    c == ' ' || c == '\t' || c == '\n' || c == '\r'
}

/// `s` with leading and trailing whitespace removed: the subrange from the
/// first non-space character to one past the last.
pub open spec fn spec_trim(s: Seq<char>) -> Seq<char>
    decreases s.len(),
{
    if s.len() == 0 {
        s
    } else if spec_is_space(s[0]) {
        spec_trim(s.subrange(1, s.len() as int))
    } else if spec_is_space(s[s.len() - 1]) {
        spec_trim(s.subrange(0, s.len() - 1))
    } else {
        s
    }
}

/// Copy of `s` with leading and trailing whitespace removed.
pub fn trim_str(s: &str) -> (r: String)
    ensures
        r@ == spec_trim(s@),
{
    let len = s.unicode_len();
    proof {
        assert(s@.subrange(0, len as int) =~= s@);
    }
    let mut lo: usize = 0;
    while lo < len && is_space(s.get_char(lo))
        invariant
            lo <= len,
            len == s@.len(),
            forall|j: int| 0 <= j < lo ==> spec_is_space(s@[j]),
            spec_trim(s@) == spec_trim(s@.subrange(lo as int, len as int)),
        decreases len - lo,
    {
        proof {
            lemma_trim_drop_first(s@.subrange(lo as int, len as int));
            assert(s@.subrange(lo as int, len as int).subrange(
                1,
                s@.subrange(lo as int, len as int).len() as int,
            ) =~= s@.subrange(lo + 1, len as int));
        }
        lo = lo + 1;
    }
    let mut hi: usize = len;
    while hi > lo && is_space(s.get_char(hi - 1))
        invariant
            lo <= hi <= len,
            len == s@.len(),
            lo < len ==> !spec_is_space(s@[lo as int]),
            spec_trim(s@) == spec_trim(s@.subrange(lo as int, hi as int)),
        decreases hi,
    {
        proof {
            lemma_trim_drop_last(s@.subrange(lo as int, hi as int));
            assert(s@.subrange(lo as int, hi as int).subrange(
                0,
                s@.subrange(lo as int, hi as int).len() - 1,
            ) =~= s@.subrange(lo as int, hi - 1));
        }
        hi = hi - 1;
    }
    proof {
        lemma_trim_noop(s@.subrange(lo as int, hi as int));
    }
    let mut out = String::new();
    let mut i: usize = lo;
    while i < hi
        invariant
            lo <= i <= hi <= len,
            len == s@.len(),
            out@ == s@.subrange(lo as int, i as int),
        decreases hi - i,
    {
        out.push(s.get_char(i));
        proof {
            assert(s@.subrange(lo as int, i as int).push(s@[i as int]) =~= s@.subrange(
                lo as int,
                i + 1,
            ));
        }
        i = i + 1;
    }
    out
}

proof fn lemma_trim_drop_first(s: Seq<char>)
    requires
        s.len() > 0,
        spec_is_space(s[0]),
    ensures
        spec_trim(s) == spec_trim(s.subrange(1, s.len() as int)),
{
}

proof fn lemma_trim_drop_last(s: Seq<char>)
    requires
        s.len() > 0,
        !spec_is_space(s[0]) || s.len() == 1,
        spec_is_space(s[s.len() - 1]),
    ensures
        spec_trim(s) == spec_trim(s.subrange(0, s.len() - 1)),
    decreases s.len(),
{
    if s.len() == 1 {
        assert(s.subrange(1, s.len() as int) =~= s.subrange(0, s.len() - 1));
    } else {
        assert(!spec_is_space(s[0]));
    }
}

proof fn lemma_trim_noop(s: Seq<char>)
    requires
        s.len() == 0 || (!spec_is_space(s[0]) && !spec_is_space(s[s.len() - 1])),
    ensures
        spec_trim(s) == s,
{
}

/// The lines of `s`, split on newline characters, a trailing newline
/// producing no empty final line.
pub open spec fn spec_split_lines(s: Seq<char>) -> Seq<Seq<char>>
    decreases s.len(),
{
    if s.len() == 0 {
        seq![]
    } else if s[0] == '\n' {
        seq![Seq::<char>::empty()] + spec_split_lines(s.drop_first())
    } else {
        let rest = spec_split_lines(s.drop_first());
        if rest.len() == 0 {
            seq![seq![s[0]]]
        } else {
            seq![seq![s[0]] + rest[0]] + rest.drop_first()
        }
    }
}

/// How a partially built first line combines with the lines of the
/// remaining input.
pub open spec fn spec_merge_line(cur: Seq<char>, rest: Seq<Seq<char>>) -> Seq<Seq<char>> {
    if rest.len() == 0 {
        if cur.len() == 0 {
            seq![]
        } else {
            seq![cur]
        }
    } else {
        seq![cur + rest[0]] + rest.drop_first()
    }
}

/// Starting a line from nothing changes no line boundaries.
proof fn lemma_merge_empty_line(rest: Seq<Seq<char>>)
    ensures
        spec_merge_line(Seq::<char>::empty(), rest) == rest,
{
    if rest.len() == 0 {
        assert(spec_merge_line(Seq::<char>::empty(), rest) =~~= rest);
    } else {
        assert(Seq::<char>::empty() + rest[0] =~= rest[0]);
        assert(spec_merge_line(Seq::<char>::empty(), rest) =~~= rest);
    }
}

/// Split `s` into its lines.
#[verifier::loop_isolation(false)]
pub fn split_lines(s: &str) -> (r: Vec<String>)
    ensures
        r.deep_view() == spec_split_lines(s@),
{
    let len = s.unicode_len();
    let mut done: Vec<String> = Vec::new();
    let mut cur = String::new();
    let mut i: usize = 0;
    proof {
        assert(s@.skip(0) =~= s@);
        lemma_merge_empty_line(spec_split_lines(s@));
        assert(done.deep_view() =~~= Seq::<Seq<char>>::empty());
    }
    while i < len
        invariant
            i <= len,
            spec_split_lines(s@) == done.deep_view() + spec_merge_line(
                cur@,
                spec_split_lines(s@.skip(i as int)),
            ),
        decreases len - i,
    {
        let ghost tail = s@.skip(i as int);
        let ghost rest = spec_split_lines(s@.skip(i + 1));
        let ghost dv = done.deep_view();
        let ghost cur0 = cur@;
        proof {
            assert(tail[0] == s@[i as int]);
            assert(tail.drop_first() =~= s@.skip(i + 1));
        }
        let c = s.get_char(i);
        if c == '\n' {
            done.push(cur);
            cur = String::new();
            proof {
                assert(done.deep_view() =~~= dv.push(cur0));
                assert(spec_split_lines(tail) == seq![Seq::<char>::empty()] + rest);
                assert(spec_merge_line(cur0, spec_split_lines(tail)) =~~= seq![cur0] + rest);
                lemma_merge_empty_line(rest);
                assert(dv + (seq![cur0] + rest) =~~= dv.push(cur0) + rest);
            }
        } else {
            cur.push(c);
            proof {
                if rest.len() == 0 {
                    assert(spec_split_lines(tail) == seq![seq![s@[i as int]]]);
                    assert(cur0 + seq![s@[i as int]] =~= cur@);
                    assert(spec_merge_line(cur0, spec_split_lines(tail)) =~~= seq![cur@]);
                    assert(spec_merge_line(cur@, rest) =~~= seq![cur@]);
                } else {
                    assert(spec_split_lines(tail) == seq![seq![s@[i as int]] + rest[0]]
                        + rest.drop_first());
                    assert(cur0 + (seq![s@[i as int]] + rest[0]) =~= cur@ + rest[0]);
                    assert(spec_merge_line(cur0, spec_split_lines(tail)) =~~= spec_merge_line(
                        cur@,
                        rest,
                    ));
                }
            }
        }
        i = i + 1;
    }
    proof {
        assert(s@.skip(len as int) =~= Seq::<char>::empty());
    }
    if cur.unicode_len() > 0 {
        let ghost dv = done.deep_view();
        let ghost cur0 = cur@;
        proof {
            assert(spec_merge_line(cur0, spec_split_lines(Seq::<char>::empty())) =~~= seq![cur0]);
        }
        done.push(cur);
        proof {
            assert(done.deep_view() =~~= dv.push(cur0));
            assert(dv + seq![cur0] =~~= dv.push(cur0));
        }
    } else {
        proof {
            assert(spec_merge_line(cur@, spec_split_lines(Seq::<char>::empty()))
                =~~= Seq::<Seq<char>>::empty());
            assert(done.deep_view() + Seq::<Seq<char>>::empty() =~~= done.deep_view());
        }
    }
    done
}

/// `c` is a decimal digit.
pub open spec fn spec_is_digit(c: char) -> bool {
    '0' <= c && c <= '9'
}

/// Numeric value of a digit character.
pub open spec fn spec_digit_val(c: char) -> int {
    c as int - '0' as int
}

/// Every character of `s` is a decimal digit.
pub open spec fn spec_all_digits(s: Seq<char>) -> bool {
    forall|i: int| 0 <= i < s.len() ==> spec_is_digit(#[trigger] s[i])
}

/// The number denoted by a sequence of decimal digits, most significant
/// first.
pub open spec fn spec_dec_value(s: Seq<char>) -> int
    decreases s.len(),
{
    if s.len() == 0 {
        0
    } else {
        spec_dec_value(s.drop_last()) * 10 + spec_digit_val(s.last())
    }
}

/// The decimal digit sequence of `n`, without leading zeros (just "0" for
/// zero).
pub open spec fn spec_dec_digits(n: nat) -> Seq<char>
    decreases n,
{
    if n < 10 {
        seq![spec_digit_char(n % 10)]
    } else {
        spec_dec_digits(n / 10).push(spec_digit_char(n % 10))
    }
}

/// The digit character for a value below ten.
pub open spec fn spec_digit_char(d: nat) -> char {
    (48 + d) as char
}

fn digit_char(d: u64) -> (c: char)
    requires
        d < 10,
    ensures
        c == spec_digit_char(d as nat),
        spec_is_digit(c),
{
    let b: u8 = 48 + (d as u8);
    b as char
}

/// Decimal representation of `n`.
pub fn u64_to_dec(n: u64) -> (r: String)
    ensures
        r@ == spec_dec_digits(n as nat),
    decreases n,
{
    if n < 10 {
        let mut s = String::new();
        s.push(digit_char(n));
        proof {
            assert(s@ =~= spec_dec_digits(n as nat));
        }
        s
    } else {
        let mut s = u64_to_dec(n / 10);
        s.push(digit_char(n % 10));
        s
    }
}

/// Decimal representation of a non-negative `i32`.
pub fn i32_to_dec(n: i32) -> (r: String)
    requires
        n >= 0,
    ensures
        r@ == spec_dec_digits(n as nat),
{
    u64_to_dec(n as u64)
}

/// "true" or "false", as the spawned services expect it on their command
/// line.
pub fn bool_to_str(b: bool) -> (r: String)
    ensures
        b ==> r@ == "true"@,
        !b ==> r@ == "false"@,
{
    if b {
        String::from_str("true")
    } else {
        String::from_str("false")
    }
}

/// The number is written with a leading minus sign.
pub open spec fn spec_parse_neg(s: Seq<char>) -> bool {
    s.len() > 0 && s[0] == '-'
}

/// The digit run of a signed decimal literal: everything after an optional
/// leading sign.
pub open spec fn spec_digits_part(s: Seq<char>) -> Seq<char> {
    if s.len() > 0 && (s[0] == '-' || s[0] == '+') {
        s.subrange(1, s.len() as int)
    } else {
        s
    }
}

/// What parsing `s` as an `i32` yields: an optional sign followed by at
/// least one digit, with the magnitude within range; anything else is
/// `None`.
pub open spec fn spec_parse_i32(s: Seq<char>) -> Option<i32> {
    if spec_digits_part(s).len() == 0 || !spec_all_digits(spec_digits_part(s)) {
        None
    } else if spec_parse_neg(s) && -spec_dec_value(spec_digits_part(s)) >= i32::MIN {
        Some((-spec_dec_value(spec_digits_part(s))) as i32)
    } else if !spec_parse_neg(s) && spec_dec_value(spec_digits_part(s)) <= i32::MAX {
        Some(spec_dec_value(spec_digits_part(s)) as i32)
    } else {
        None
    }
}

/// Parse a decimal `i32`, rejecting anything but an optionally signed run
/// of digits whose value fits.
pub fn parse_i32(s: &str) -> (r: Option<i32>)
    ensures
        r == spec_parse_i32(s@),
{
    let len = s.unicode_len();
    let mut start: usize = 0;
    let mut neg = false;
    if len > 0 {
        let c0 = s.get_char(0);
        if c0 == '-' {
            neg = true;
            start = 1;
        } else if c0 == '+' {
            start = 1;
        }
    }
    let ghost digits = spec_digits_part(s@);
    proof {
        assert(digits =~= s@.subrange(start as int, len as int));
    }
    if start >= len {
        return None;
    }
    let mut acc: i64 = 0;
    let mut i: usize = start;
    while i < len
        invariant
            start <= i <= len,
            len == s@.len(),
            start < len,
            digits == s@.subrange(start as int, len as int),
            digits == spec_digits_part(s@),
            neg == spec_parse_neg(s@),
            spec_all_digits(s@.subrange(start as int, i as int)),
            acc == spec_dec_value(s@.subrange(start as int, i as int)),
            0 <= acc <= 0x8000_0000,
        decreases len - i,
    {
        let c = s.get_char(i);
        if !(c >= '0' && c <= '9') {
            proof {
                assert(digits[i - start] == s@[i as int]);
                assert(!spec_is_digit(s@[i as int]));
                assert(!spec_all_digits(digits));
                assert(spec_parse_i32(s@) is None);
            }
            return None;
        }
        let d: i64 = (c as u32 as i64) - 48;
        assert(d == spec_digit_val(s@[i as int]));
        if acc > 214748364 || (acc == 214748364 && d > 8) {
            proof {
                if spec_all_digits(digits) {
                    assert(digits.subrange(0, i + 1 - start) =~= s@.subrange(start as int, i + 1));
                    assert(digits.subrange(0, i + 1 - start).drop_last() =~= s@.subrange(
                        start as int,
                        i as int,
                    ));
                    assert(spec_dec_value(digits.subrange(0, i + 1 - start)) == acc * 10 + d);
                    lemma_dec_value_grows(digits, i + 1 - start);
                    assert(spec_dec_value(digits) > 0x8000_0000);
                }
                assert(spec_parse_i32(s@) is None);
            }
            return None;
        }
        acc = acc * 10 + d;
        proof {
            let pre = s@.subrange(start as int, i + 1);
            assert(pre.drop_last() =~= s@.subrange(start as int, i as int));
            assert(forall|j: int| 0 <= j < pre.len() ==> spec_is_digit(#[trigger] pre[j]));
        }
        i = i + 1;
    }
    proof {
        assert(s@.subrange(start as int, len as int) =~= digits);
    }
    if neg {
        Some((-acc) as i32)
    } else {
        if acc > 2147483647 {
            None
        } else {
            Some(acc as i32)
        }
    }
}

/// Taking more digits of an all-digit run never shrinks the value, so a
/// prefix already too large means the whole run is too large.
proof fn lemma_dec_value_grows(s: Seq<char>, k: int)
    requires
        spec_all_digits(s),
        0 <= k <= s.len(),
    ensures
        spec_dec_value(s) >= spec_dec_value(s.subrange(0, k)),
    decreases s.len() - k,
{
    if k == s.len() {
        assert(s.subrange(0, k) =~= s);
    } else {
        assert(s.subrange(0, k + 1).drop_last() =~= s.subrange(0, k));
        assert(spec_all_digits(s.subrange(0, k))) by {
            assert(forall|j: int|
                0 <= j < k ==> spec_is_digit(#[trigger] s.subrange(0, k)[j]) == spec_is_digit(
                    s[j],
                ));
        }
        lemma_dec_value_nonneg(s.subrange(0, k));
        assert(spec_dec_value(s.subrange(0, k + 1)) == spec_dec_value(s.subrange(0, k)) * 10
            + spec_digit_val(s[k]));
        lemma_dec_value_grows(s, k + 1);
    }
}

/// The value of a digit run is non-negative.
pub proof fn lemma_dec_value_nonneg(s: Seq<char>)
    requires
        spec_all_digits(s),
    ensures
        spec_dec_value(s) >= 0,
    decreases s.len(),
{
    if s.len() > 0 {
        assert(spec_all_digits(s.drop_last())) by {
            assert(forall|i: int| 0 <= i < s.len() - 1 ==> s.drop_last()[i] == s[i]);
        }
        lemma_dec_value_nonneg(s.drop_last());
    }
}

} // verus!
