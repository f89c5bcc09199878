//! How durations and long texts are shown.

use crate::text::{magnitude, push_text, push_zero_padded, zero_padded};
use vstd::prelude::*;
use vstd::string::*;
use vstd::utf8::*;

verus! {

/// The quotient of `a` by a positive `b`, rounded toward zero.
pub open spec fn trunc_div(a: int, b: int) -> int {
    if a >= 0 {
        a / b
    } else {
        -((-a) / b)
    }
}

/// The remainder that goes with [`trunc_div`]; it has the sign of `a`.
pub open spec fn trunc_rem(a: int, b: int) -> int {
    a - trunc_div(a, b) * b
}

/// A number of seconds as `HH:MM:SS`: hours, minutes and seconds with two
/// digits at least, the hours growing as needed. A negative number shows
/// each of its parts that is not zero with a minus sign.
pub open spec fn duration_text(seconds: int) -> Seq<char> {
    zero_padded(trunc_div(seconds, 3600), 2) + ":"@ + zero_padded(
        trunc_div(trunc_rem(seconds, 3600), 60),
        2,
    ) + ":"@ + zero_padded(trunc_rem(seconds, 60), 2)
}

/// A number of seconds as `MM:SS`: minutes and seconds with two digits at
/// least, the minutes growing as needed.
pub open spec fn remaining_text(seconds: int) -> Seq<char> {
    zero_padded(trunc_div(seconds, 60), 2) + ":"@ + zero_padded(trunc_rem(seconds, 60), 2)
}

/// A number of the given size with the sign of `like`.
fn signed_like(size: u64, like: i64) -> (r: i64)
    requires
        size <= i64::MAX,
    ensures
        r == (if like < 0 { -(size as int) } else { size as int }),
{
    if like < 0 {
        -(size as i64)
    } else {
        size as i64
    }
}

/// Formats a number of seconds as `HH:MM:SS`.
pub fn format_duration(seconds: i64) -> (r: String)
    ensures
        r@ == duration_text(seconds as int),
{
    let size = magnitude(seconds);
    let hours = signed_like(size / 3600, seconds);
    let minutes = signed_like((size % 3600) / 60, seconds);
    let secs = signed_like(size % 60, seconds);
    assert(hours == trunc_div(seconds as int, 3600));
    assert(minutes == trunc_div(trunc_rem(seconds as int, 3600), 60));
    assert(secs == trunc_rem(seconds as int, 60));
    let mut out = String::new();
    push_zero_padded(&mut out, hours, 2);
    push_text(&mut out, ":");
    push_zero_padded(&mut out, minutes, 2);
    push_text(&mut out, ":");
    push_zero_padded(&mut out, secs, 2);
    proof {
        assert(out@ =~= duration_text(seconds as int));
    }
    out
}

/// Formats the seconds that remain of an interval as `MM:SS`.
pub fn format_remaining(seconds: i64) -> (r: String)
    ensures
        r@ == remaining_text(seconds as int),
{
    let size = magnitude(seconds);
    let minutes = signed_like(size / 60, seconds);
    let secs = signed_like(size % 60, seconds);
    assert(minutes == trunc_div(seconds as int, 60));
    assert(secs == trunc_rem(seconds as int, 60));
    let mut out = String::new();
    push_zero_padded(&mut out, minutes, 2);
    push_text(&mut out, ":");
    push_zero_padded(&mut out, secs, 2);
    proof {
        assert(out@ =~= remaining_text(seconds as int));
    }
    out
}

/// Formats the seconds that remain of a Pomodoro interval as `MM:SS`.
pub fn format_remaining_time(secs: i64) -> (r: String)
    ensures
        r@ == remaining_text(secs as int),
{
    format_remaining(secs)
}

/// The length of a text in bytes, as `str::len` reports it.
pub open spec fn byte_len(text: Seq<char>) -> usize {
    encode_utf8(text).len() as usize
}

/// A text cut to `max_len` bytes: a text that is longer keeps its first
/// `max_len - 3` bytes and ends in three dots; a shorter one is left as it
/// is.
pub open spec fn truncated(text: Seq<char>, max_len: int) -> Seq<char> {
    if byte_len(text) > max_len {
        decode_utf8(encode_utf8(text).subrange(0, max_len - 3)) + "..."@
    } else {
        text
    }
}

/// The text can be cut to `max_len` bytes: it is short enough to stay whole,
/// or the limit leaves room for the three dots and the cut falls between two
/// characters.
pub open spec fn cut_is_clean(text: Seq<char>, max_len: int) -> bool {
    byte_len(text) > max_len ==> max_len >= 3 && is_char_boundary(
        encode_utf8(text),
        max_len - 3,
    )
}

/// A text that ends in three dots is three bytes longer than what stands
/// before the dots.
pub proof fn lemma_dots_take_three_bytes(head: Seq<char>)
    ensures
        encode_utf8(head + "..."@).len() == encode_utf8(head).len() + 3,
{
    reveal_strlit("...");
    let dots = "..."@;
    let before = encode_utf8(head);
    let after = encode_utf8(dots);
    let all = before + after;
    assert(is_ascii_chars(dots));
    is_ascii_chars_encode_utf8(dots);
    encode_utf8_valid_utf8(head);
    encode_utf8_valid_utf8(dots);
    valid_utf8_concat(before, after);
    assert(all[before.len() as int] == after[0]);
    assert(after[0] == dots[0] as u8);
    is_char_boundary_iff_not_is_continuation_byte(all, before.len() as int);
    decode_utf8_split(all, before.len() as int);
    assert(all.subrange(0, before.len() as int) =~= before);
    assert(all.subrange(before.len() as int, all.len() as int) =~= after);
    encode_utf8_decode_utf8(head);
    encode_utf8_decode_utf8(dots);
    assert(decode_utf8(all) =~= head + dots);
    decode_utf8_encode_utf8(all);
}

/// A text that was cut is no longer than the limit.
pub proof fn law_cut_text_fits(text: Seq<char>, max_len: int)
    requires
        0 <= max_len <= usize::MAX,
        encode_utf8(text).len() <= usize::MAX,
        cut_is_clean(text, max_len),
    ensures
        encode_utf8(truncated(text, max_len)).len() <= max_len,
{
    if byte_len(text) > max_len {
        let bytes = encode_utf8(text);
        let head = decode_utf8(bytes.subrange(0, max_len - 3));
        encode_utf8_valid_utf8(text);
        valid_utf8_split(bytes, max_len - 3);
        decode_utf8_encode_utf8(bytes.subrange(0, max_len - 3));
        lemma_dots_take_three_bytes(head);
    }
}

/// Cuts a text to `max_len` bytes, marking the cut with three dots.
///
/// Where the text is longer than the limit, the limit leaves room for the
/// dots and the cut does not fall inside a character. What comes back is
/// no longer than the limit.
pub fn truncate_string(s: &str, max_len: usize) -> (r: String)
    requires
        cut_is_clean(s@, max_len as int),
    ensures
        r@ == truncated(s@, max_len as int),
        encode_utf8(r@).len() <= max_len,
{
    let len = s.as_bytes().len();
    proof {
        law_cut_text_fits(s@, max_len as int);
    }
    if len > max_len {
        let (head, _tail) = s.split_at(max_len - 3);
        let mut out = head.to_string();
        push_text(&mut out, "...");
        proof {
            encode_utf8_decode_utf8(head@);
            assert(encode_utf8(head@) == encode_utf8(s@).subrange(0, max_len - 3));
        }
        out
    } else {
        s.to_string()
    }
}

/// Cuts a text to `max_len` bytes where [`truncate_string`] can do so, and
/// leaves it whole where it is longer than a limit below three or the cut
/// would fall inside a character.
pub fn shorten(s: &str, max_len: usize) -> (r: String)
    ensures
        r@ == (if cut_is_clean(s@, max_len as int) {
            truncated(s@, max_len as int)
        } else {
            s@
        }),
{
    if s.len() <= max_len || (max_len >= 3 && s.is_char_boundary(max_len - 3)) {
        truncate_string(s, max_len)
    } else {
        s.to_string()
    }
}

/// The margin, in percent, that is left on either side of a box that takes
/// `percent` of the width or height and stands in the middle.
pub fn centered_margin(percent: u16) -> (margin: u16)
    requires
        percent <= 100,
    ensures
        margin == (100 - percent) / 2,
{
    (100 - percent) / 2
}

} // verus!
