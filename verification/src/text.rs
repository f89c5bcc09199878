//! Text: the decimal notation of numbers, reading numbers back from typed
//! input, and the few string operations of the standard library that the
//! tracker relies on.

use vstd::prelude::*;
use vstd::string::*;

verus! {

/// `String::push` appends one character.
pub assume_specification[ String::push ](s: &mut String, c: char)
    ensures
        final(s)@ == old(s)@.push(c),
;

/// `String::pop` removes the last character and returns it, or returns `None`
/// and leaves an empty string empty.
pub assume_specification[ String::pop ](s: &mut String) -> (r: Option<char>)
    ensures
        old(s)@.len() == 0 ==> r.is_none() && final(s)@ == old(s)@,
        old(s)@.len() > 0 ==> r == Some(old(s)@.last()) && final(s)@ == old(s)@.drop_last(),
;

/// `String::clear` empties the string.
pub assume_specification[ String::clear ](s: &mut String)
    ensures
        final(s)@ == Seq::<char>::empty(),
;

/// The lower-case form of a text under the Unicode rules that
/// `str::to_lowercase` applies.
pub uninterp spec fn lowercase_text(text: Seq<char>) -> Seq<char>;

/// Calls `str::to_lowercase`.
///
/// Trusted: the result is the Unicode lower-case form of the argument, a
/// function of the argument alone.
#[verifier::external_body]
pub(crate) fn lowercase(text: &str) -> (r: String)
    ensures
        r@ == lowercase_text(text@),
{
    text.to_lowercase()
}

/// `needle` stands in `hay` at position `i`.
pub open spec fn occurs_at(hay: Seq<char>, needle: Seq<char>, i: int) -> bool {
    0 <= i && i + needle.len() <= hay.len() && hay.subrange(i, i + needle.len()) == needle
}

/// `needle` stands somewhere in `hay` as a run of consecutive characters.
pub open spec fn has_substring(hay: Seq<char>, needle: Seq<char>) -> bool {
    exists|i: int| occurs_at(hay, needle, i)
}

/// Calls `str::contains` with a string pattern.
///
/// Trusted: the result tells whether the pattern occurs in the text as a run
/// of consecutive characters.
#[verifier::external_body]
pub(crate) fn contains_text(hay: &str, needle: &str) -> (r: bool)
    ensures
        r == has_substring(hay@, needle@),
{
    hay.contains(needle)
}

/// Whether `text` holds `needle` once both are compared without regard to
/// letter case, the pattern being given in lower case already.
pub fn contains_ignoring_case(text: &str, lowercase_needle: &str) -> (r: bool)
    ensures
        r == has_substring(lowercase_text(text@), lowercase_needle@),
{
    let lowered = lowercase(text);
    contains_text(lowered.as_str(), lowercase_needle)
}

/// The character that writes the digit `d`.
pub open spec fn digit_char(d: int) -> char {
    if d == 0 {
        '0'
    } else if d == 1 {
        '1'
    } else if d == 2 {
        '2'
    } else if d == 3 {
        '3'
    } else if d == 4 {
        '4'
    } else if d == 5 {
        '5'
    } else if d == 6 {
        '6'
    } else if d == 7 {
        '7'
    } else if d == 8 {
        '8'
    } else {
        '9'
    }
}

/// Whether `c` is one of `0` to `9`.
pub open spec fn is_digit(c: char) -> bool {
    '0' <= c && c <= '9'
}

/// The number that the digit character `c` writes.
pub open spec fn digit_value(c: char) -> int {
    c as int - '0' as int
}

/// The decimal notation of a natural number, without leading zeros.
pub open spec fn decimal(n: nat) -> Seq<char>
    decreases n,
{
    if n < 10 {
        seq![digit_char(n as int)]
    } else {
        decimal(n / 10).push(digit_char((n % 10) as int))
    }
}

/// The decimal notation of an integer, with `-` in front of a negative one.
pub open spec fn signed_decimal(n: int) -> Seq<char> {
    if n < 0 {
        seq!['-'] + decimal((-n) as nat)
    } else {
        decimal(n as nat)
    }
}

/// `k` zeros.
pub open spec fn zeros(k: nat) -> Seq<char> {
    Seq::new(k, |i: int| '0')
}

/// The decimal notation of `n` filled with zeros after the sign up to `width`
/// characters in all; longer notations are left as they are.
pub open spec fn zero_padded(n: int, width: nat) -> Seq<char> {
    let digits = decimal((if n < 0 { -n } else { n }) as nat);
    let sign: Seq<char> = if n < 0 { seq!['-'] } else { Seq::empty() };
    let used = sign.len() + digits.len();
    let fill: nat = if used < width { (width - used) as nat } else { 0 };
    sign + zeros(fill) + digits
}

/// An amount counted in hundredths, written with two decimals (`1234` is
/// `12.34`).
pub open spec fn hundredths_text(n: nat) -> Seq<char> {
    decimal(n / 100) + seq!['.'] + zero_padded((n % 100) as int, 2)
}

/// Every character of `s` is a digit.
pub open spec fn all_digits(s: Seq<char>) -> bool {
    forall|i: int| 0 <= i < s.len() ==> is_digit(#[trigger] s[i])
}

/// The number that a run of digits writes; the empty run writes zero.
pub open spec fn digits_value(s: Seq<char>) -> nat
    decreases s.len(),
{
    if s.len() == 0 {
        0
    } else {
        (digits_value(s.drop_last()) * 10 + digit_value(s.last())) as nat
    }
}

/// Position of the first `.` in `s`, or the length of `s` where it has none.
pub open spec fn point_index(s: Seq<char>) -> int
    decreases s.len(),
{
    if s.len() == 0 {
        0
    } else if s.first() == '.' {
        0
    } else {
        1 + point_index(s.drop_first())
    }
}

/// The whole number that `s` writes in the notation that Rust's integer
/// parsing accepts: an optional sign, then at least one digit and nothing
/// else. `None` for any other text.
pub open spec fn integer_text_value(s: Seq<char>) -> Option<int> {
    let signed = s.len() > 0 && (s[0] == '-' || s[0] == '+');
    let body = if signed { s.drop_first() } else { s };
    if body.len() == 0 || !all_digits(body) {
        None
    } else if s[0] == '-' {
        Some(-(digits_value(body) as int))
    } else {
        Some(digits_value(body) as int)
    }
}

/// What `s` means to [`parse_i32`]: the number it writes where that number
/// fits in an `i32`.
pub open spec fn i32_text_value(s: Seq<char>) -> Option<i32> {
    match integer_text_value(s) {
        Some(v) => if i32::MIN <= v <= i32::MAX {
            Some(v as i32)
        } else {
            None
        },
        None => None,
    }
}

/// The value in hundredths of the first two fraction digits of `frac`, a run
/// of digits; missing digits count as zero and further digits are dropped.
pub open spec fn fraction_hundredths(frac: Seq<char>) -> int {
    if frac.len() == 0 {
        0
    } else if frac.len() == 1 {
        digit_value(frac[0]) * 10
    } else {
        digit_value(frac[0]) * 10 + digit_value(frac[1])
    }
}

/// What `s` means as a non-negative decimal number counted in hundredths.
///
/// The text is a run of digits, optionally followed by `.` and another run of
/// digits; at least one digit must be present. Digits after the second
/// decimal are dropped. `None` for any other text.
pub open spec fn hundredths_text_value(s: Seq<char>) -> Option<nat> {
    let p = point_index(s);
    let whole = s.subrange(0, p);
    let frac = if p < s.len() { s.subrange(p + 1, s.len() as int) } else { Seq::empty() };
    if !all_digits(whole) || !all_digits(frac) || whole.len() + frac.len() == 0 {
        None
    } else {
        Some((digits_value(whole) * 100 + fraction_hundredths(frac)) as nat)
    }
}

/// What `s` means to [`parse_hundredths`]: its value in hundredths where that
/// fits in a `u64`.
pub open spec fn hundredths_u64_value(s: Seq<char>) -> Option<u64> {
    match hundredths_text_value(s) {
        Some(v) => if v <= u64::MAX {
            Some(v as u64)
        } else {
            None
        },
        None => None,
    }
}

/// A longer run of digits writes a number at least as large as any of its
/// prefixes.
pub proof fn lemma_digits_value_prefix(s: Seq<char>, i: int)
    requires
        all_digits(s),
        0 <= i <= s.len(),
    ensures
        digits_value(s.subrange(0, i)) <= digits_value(s),
    decreases s.len(),
{
    if i == s.len() {
        assert(s.subrange(0, i) =~= s);
    } else {
        let t = s.drop_last();
        assert(all_digits(t)) by {
            assert forall|k: int| 0 <= k < t.len() implies is_digit(#[trigger] t[k]) by {
                assert(t[k] == s[k]);
            }
        }
        lemma_digits_value_prefix(t, i);
        assert(t.subrange(0, i) =~= s.subrange(0, i));
        assert(is_digit(s[s.len() - 1]));
    }
}

/// The first `.` of a text lies within it, and nothing before it is a `.`.
pub proof fn lemma_point_index(s: Seq<char>)
    ensures
        0 <= point_index(s) <= s.len(),
        point_index(s) < s.len() ==> s[point_index(s)] == '.',
        forall|k: int| 0 <= k < point_index(s) ==> #[trigger] s[k] != '.',
    decreases s.len(),
{
    if s.len() > 0 && s.first() != '.' {
        let t = s.drop_first();
        lemma_point_index(t);
        assert forall|k: int| 0 <= k < point_index(s) implies #[trigger] s[k] != '.' by {
            if k > 0 {
                assert(s[k] == t[k - 1]);
            }
        }
        if point_index(s) < s.len() {
            assert(s[point_index(s)] == t[point_index(t)]);
        }
    }
}

/// A position that holds the first `.` of a text, or its length where it has
/// none, is its [`point_index`].
pub proof fn lemma_point_index_is(s: Seq<char>, p: int)
    requires
        0 <= p <= s.len(),
        p < s.len() ==> s[p] == '.',
        forall|k: int| 0 <= k < p ==> #[trigger] s[k] != '.',
    ensures
        point_index(s) == p,
{
    lemma_point_index(s);
    let q = point_index(s);
    if q < p {
        assert(s[q] != '.');
    } else if p < q {
        assert(s[p] != '.');
    }
}

/// The character that writes the digit `d`.
pub fn digit_to_char(d: u8) -> (c: char)
    requires
        d < 10,
    ensures
        c == digit_char(d as int),
        is_digit(c),
        digit_value(c) == d,
{
    match d {
        0 => '0',
        1 => '1',
        2 => '2',
        3 => '3',
        4 => '4',
        5 => '5',
        6 => '6',
        7 => '7',
        8 => '8',
        _ => '9',
    }
}

/// Appends the decimal notation of `n` to `buf`.
pub fn push_decimal(buf: &mut String, n: u64)
    ensures
        final(buf)@ == old(buf)@ + decimal(n as nat),
    decreases n,
{
    if n >= 10 {
        push_decimal(buf, n / 10);
    }
    let d: u8 = (n % 10) as u8;
    buf.push(digit_to_char(d));
    proof {
        if n >= 10 {
            assert(final(buf)@ =~= old(buf)@ + decimal(n as nat));
        } else {
            assert(final(buf)@ =~= old(buf)@ + decimal(n as nat));
        }
    }
}

/// The number of characters in the decimal notation of `n`.
pub fn decimal_len(n: u64) -> (len: usize)
    ensures
        len == decimal(n as nat).len(),
        1 <= len <= 20,
    decreases n,
{
    if n >= 10 {
        let shorter = decimal_len(n / 10);
        proof {
            lemma_decimal_len_bound(n as nat);
        }
        shorter + 1
    } else {
        1
    }
}

/// A number below `2^64` has at most twenty decimal digits.
pub proof fn lemma_decimal_len_bound(n: nat)
    requires
        n <= u64::MAX,
    ensures
        1 <= decimal(n).len() <= 20,
{
    reveal_with_fuel(decimal, 21);
}

/// The size of a signed number: `|n|`.
pub fn magnitude(n: i64) -> (m: u64)
    ensures
        m == (if n < 0 { -(n as int) } else { n as int }),
{
    if n >= 0 {
        n as u64
    } else if n == i64::MIN {
        9_223_372_036_854_775_808u64
    } else {
        (-n) as u64
    }
}

/// Appends the decimal notation of `n`, with its sign, to `buf`.
pub fn push_signed(buf: &mut String, n: i64)
    ensures
        final(buf)@ == old(buf)@ + signed_decimal(n as int),
{
    if n < 0 {
        buf.push('-');
    }
    push_decimal(buf, magnitude(n));
    proof {
        assert(final(buf)@ =~= old(buf)@ + signed_decimal(n as int));
    }
}

/// Appends `n` in decimal notation, filled with zeros after the sign up to
/// `width` characters.
pub fn push_zero_padded(buf: &mut String, n: i64, width: usize)
    ensures
        final(buf)@ == old(buf)@ + zero_padded(n as int, width as nat),
{
    let m = magnitude(n);
    let digits = decimal_len(m);
    let used: usize = if n < 0 { digits + 1 } else { digits };
    if n < 0 {
        buf.push('-');
    }
    let ghost start = buf@;
    let mut written: usize = used;
    while written < width
        invariant
            used <= written,
            written <= width || written == used,
            buf@ == start + zeros((written - used) as nat),
        decreases width - written,
    {
        buf.push('0');
        written += 1;
        proof {
            assert(buf@ =~= start + zeros((written - used) as nat));
        }
    }
    proof {
        assert(zeros(0) =~= Seq::<char>::empty());
    }
    push_decimal(buf, m);
    proof {
        assert(final(buf)@ =~= old(buf)@ + zero_padded(n as int, width as nat));
    }
}

/// The decimal notation of `n`.
pub fn decimal_string(n: i64) -> (s: String)
    ensures
        s@ == signed_decimal(n as int),
{
    let mut s = String::new();
    push_signed(&mut s, n);
    proof {
        assert(s@ =~= signed_decimal(n as int));
    }
    s
}

/// Appends `n` hundredths written with two decimals.
pub fn push_hundredths(buf: &mut String, n: u64)
    ensures
        final(buf)@ == old(buf)@ + hundredths_text(n as nat),
{
    push_decimal(buf, n / 100);
    buf.push('.');
    push_zero_padded(buf, (n % 100) as i64, 2);
    proof {
        assert(final(buf)@ =~= old(buf)@ + hundredths_text(n as nat));
    }
}

/// Appends `s` to `buf`.
pub fn push_text(buf: &mut String, s: &str)
    ensures
        final(buf)@ == old(buf)@ + s@,
{
    buf.append(s);
}

/// A text made of three parts.
pub fn three_part_text(before: &str, middle: &str, after: &str) -> (r: String)
    ensures
        r@ == before@ + middle@ + after@,
{
    let mut out = before.to_string();
    push_text(&mut out, middle);
    push_text(&mut out, after);
    out
}

/// A text that names a number between two fixed parts.
pub fn numbered_text(before: &str, n: i64, after: &str) -> (r: String)
    ensures
        r@ == before@ + signed_decimal(n as int) + after@,
{
    let mut out = before.to_string();
    push_signed(&mut out, n);
    push_text(&mut out, after);
    out
}

/// Whether `c` occurs in `s`.
pub fn has_char(s: &str, c: char) -> (r: bool)
    ensures
        r == s@.contains(c),
{
    let n = s.unicode_len();
    let mut i: usize = 0;
    while i < n
        invariant
            n == s@.len(),
            i <= n,
            forall|k: int| 0 <= k < i ==> s@[k] != c,
        decreases n - i,
    {
        if s.get_char(i) == c {
            return true;
        }
        i += 1;
    }
    false
}

/// Whether `c` is one of `0` to `9`.
pub fn is_ascii_digit(c: char) -> (r: bool)
    ensures
        r == is_digit(c),
{
    let code: u32 = c as u32;
    48 <= code && code <= 57
}

/// Reads a run of digits as a number: `None` where a character is not a digit
/// or the number does not fit in a `u64`.
pub fn parse_digits(s: &str) -> (r: Option<u64>)
    ensures
        r.is_some() <==> all_digits(s@) && digits_value(s@) <= u64::MAX,
        r.is_some() ==> r.unwrap() == digits_value(s@),
{
    let n = s.unicode_len();
    let mut acc: u64 = 0;
    let mut i: usize = 0;
    while i < n
        invariant
            n == s@.len(),
            i <= n,
            all_digits(s@.subrange(0, i as int)),
            acc == digits_value(s@.subrange(0, i as int)),
        decreases n - i,
    {
        let c = s.get_char(i);
        let ghost before = s@.subrange(0, i as int);
        let ghost after = s@.subrange(0, i + 1);
        proof {
            assert(after.drop_last() =~= before);
            assert(after.last() == c);
        }
        if !is_ascii_digit(c) {
            proof {
                assert(!is_digit(s@[i as int]));
            }
            return None;
        }
        let d: u64 = (c as u32 - 48) as u64;
        proof {
            assert(d == digit_value(c));
            assert(all_digits(after)) by {
                assert forall|k: int| 0 <= k < after.len() implies is_digit(#[trigger] after[k]) by {
                    if k < i {
                        assert(after[k] == before[k]);
                    }
                }
            }
        }
        if acc > (u64::MAX - d) / 10 {
            proof {
                assert(digits_value(after) > u64::MAX);
                if all_digits(s@) {
                    lemma_digits_value_prefix(s@, i + 1);
                }
            }
            return None;
        }
        acc = acc * 10 + d;
        i += 1;
    }
    proof {
        assert(s@.subrange(0, n as int) =~= s@);
    }
    Some(acc)
}

/// Reads `s` as an `i32` in the notation that `str::parse::<i32>` accepts: an
/// optional sign, then digits. `None` for any other text and for numbers out
/// of range.
pub fn parse_i32(s: &str) -> (r: Option<i32>)
    ensures
        r == i32_text_value(s@),
{
    let n = s.unicode_len();
    if n == 0 {
        return None;
    }
    let first = s.get_char(0);
    let signed = first == '-' || first == '+';
    let body = if signed { s.substring_char(1, n) } else { s };
    proof {
        if signed {
            assert(body@ =~= s@.drop_first());
        }
    }
    if body.unicode_len() == 0 {
        return None;
    }
    match parse_digits(body) {
        None => None,
        Some(v) => {
            if first == '-' {
                if v <= 2_147_483_648 {
                    let signed_value: i64 = -(v as i64);
                    Some(signed_value as i32)
                } else {
                    None
                }
            } else if v <= 2_147_483_647 {
                Some(v as i32)
            } else {
                None
            }
        },
    }
}

/// The position of the first `.` in `s`, or the length of `s` where it has
/// none.
pub fn find_point(s: &str) -> (p: usize)
    ensures
        p == point_index(s@),
        p <= s@.len(),
{
    let n = s.unicode_len();
    let mut i: usize = 0;
    while i < n
        invariant
            n == s@.len(),
            i <= n,
            forall|k: int| 0 <= k < i ==> #[trigger] s@[k] != '.',
        decreases n - i,
    {
        if s.get_char(i) == '.' {
            proof {
                lemma_point_index_is(s@, i as int);
            }
            return i;
        }
        i += 1;
    }
    proof {
        lemma_point_index_is(s@, n as int);
    }
    n
}

/// Whether every character of `s` is a digit.
pub fn is_digit_run(s: &str) -> (r: bool)
    ensures
        r == all_digits(s@),
{
    let n = s.unicode_len();
    let mut i: usize = 0;
    while i < n
        invariant
            n == s@.len(),
            i <= n,
            forall|k: int| 0 <= k < i ==> is_digit(#[trigger] s@[k]),
        decreases n - i,
    {
        if !is_ascii_digit(s.get_char(i)) {
            return false;
        }
        i += 1;
    }
    true
}

/// Reads a non-negative decimal number with up to two decimals as a count of
/// hundredths; see [`hundredths_text_value`] for the notation. `None` for any
/// other text and for numbers that do not fit in a `u64`.
pub fn parse_hundredths(s: &str) -> (r: Option<u64>)
    ensures
        r == hundredths_u64_value(s@),
{
    let n = s.unicode_len();
    let p = find_point(s);
    let whole = s.substring_char(0, p);
    let frac = if p < n { s.substring_char(p + 1, n) } else { s.substring_char(n, n) };
    proof {
        if p >= n {
            assert(frac@ =~= Seq::<char>::empty());
        }
    }
    let frac_len = frac.unicode_len();
    if !is_digit_run(frac) || whole.unicode_len() + frac_len == 0 {
        return None;
    }
    let tail: u64 = if frac_len == 0 {
        0
    } else if frac_len == 1 {
        (frac.get_char(0) as u32 - 48) as u64 * 10
    } else {
        (frac.get_char(0) as u32 - 48) as u64 * 10 + (frac.get_char(1) as u32 - 48) as u64
    };
    assert(tail == fraction_hundredths(frac@));
    match parse_digits(whole) {
        None => None,
        Some(v) => {
            if v > (u64::MAX - tail) / 100 {
                None
            } else {
                Some(v * 100 + tail)
            }
        },
    }
}

} // verus!
