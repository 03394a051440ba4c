//! The position model: translating a byte offset in source text into a
//! 1-based line and a 0-based column.
//!
//! Source text is modelled by its UTF-8 bytes. A line terminator is the
//! byte `0x0A`; it is also the only byte of the character `'\n'`, and in
//! UTF-8 it never occurs inside the encoding of any other character, so
//! counting terminator bytes counts terminator characters.

use vstd::prelude::*;
use vstd::string::StringSliceAdditionalSpecFns;
use vstd::utf8::{
    char_is_scalar, char_u32_cast, encode_scalar, encode_utf8, has_width_1_encoding,
    has_width_2_encoding, has_width_3_encoding, last_continuation_byte, leading_byte_width_2,
};

verus! {

/// The number of line terminators among the bytes strictly before
/// offset `off`.
pub open spec fn nl_count(b: Seq<u8>, off: int) -> nat
    decreases off,
{
    if off <= 0 {
        0
    } else {
        nl_count(b, off - 1) + (if off - 1 < b.len() && b[off - 1] == 10u8 {
            1nat
        } else {
            0nat
        })
    }
}

/// The index just after the last line terminator strictly before offset
/// `off`, or 0 when there is none: where the line holding `off` starts.
pub open spec fn line_start(b: Seq<u8>, off: int) -> int
    decreases off,
{
    if off <= 0 {
        0
    } else if off - 1 < b.len() && b[off - 1] == 10u8 {
        off
    } else {
        line_start(b, off - 1)
    }
}

/// The 1-based line of offset `off`: one more than the number of line
/// terminators strictly before it.
pub open spec fn spec_line(b: Seq<u8>, off: int) -> int {
    1 + nl_count(b, off) as int
}

/// The 0-based column of offset `off`: its byte distance from the start
/// of its line.
pub open spec fn spec_col(b: Seq<u8>, off: int) -> int {
    off - line_start(b, off)
}

/// Offset 0 is line 1, column 0, whatever the source text.
pub proof fn lemma_offset_zero(b: Seq<u8>)
    ensures
        spec_line(b, 0) == 1,
        spec_col(b, 0) == 0,
{
}

/// A line is always at least 1.
pub proof fn lemma_line_ge_one(b: Seq<u8>, off: int)
    ensures
        spec_line(b, off) >= 1,
{
}

/// Bytes at or past the end of the text hold no terminator: both counts
/// are settled by offset `b.len()`.
pub proof fn lemma_beyond_len(b: Seq<u8>, off: int)
    requires
        off >= b.len(),
    ensures
        nl_count(b, off) == nl_count(b, b.len() as int),
        line_start(b, off) == line_start(b, b.len() as int),
    decreases off,
{
    if off > b.len() {
        lemma_beyond_len(b, off - 1);
    }
}

/// The number of `'\n'` characters in the text.
pub open spec fn char_nl_count(chars: Seq<char>) -> nat
    decreases chars.len(),
{
    if chars.len() == 0 {
        0
    } else {
        (if chars[0] == '\n' {
            1nat
        } else {
            0nat
        }) + char_nl_count(chars.drop_first())
    }
}

/// Up to the end of `a`, the terminators of `a + b` are those of `a`.
proof fn lemma_nl_count_prefix(a: Seq<u8>, b: Seq<u8>, off: int)
    requires
        0 <= off <= a.len(),
    ensures
        nl_count(a + b, off) == nl_count(a, off),
    decreases off,
{
    if off > 0 {
        lemma_nl_count_prefix(a, b, off - 1);
        assert((a + b)[off - 1] == a[off - 1]);
    }
}

/// Terminator counts add up over concatenation.
proof fn lemma_nl_count_concat(a: Seq<u8>, b: Seq<u8>, k: int)
    requires
        0 <= k <= b.len(),
    ensures
        nl_count(a + b, a.len() + k) == nl_count(a, a.len() as int) + nl_count(b, k),
    decreases k,
{
    if k == 0 {
        lemma_nl_count_prefix(a, b, a.len() as int);
    } else {
        lemma_nl_count_concat(a, b, k - 1);
        assert((a + b)[a.len() + k - 1] == b[k - 1]);
    }
}

/// The encoding of one character holds a terminator byte exactly when
/// the character is `'\n'`: a one-byte encoding is the scalar itself,
/// and every byte of a longer encoding is at least `0x80`.
proof fn lemma_scalar_nl(c: char)
    ensures
        nl_count(encode_scalar(c as u32), encode_scalar(c as u32).len() as int) == (if c == '\n' {
            1nat
        } else {
            0nat
        }),
{
    reveal_with_fuel(nl_count, 6);
    char_is_scalar(c);
    let s = c as u32;
    let e = encode_scalar(s);
    assert('\n' as u32 == 10);
    if has_width_1_encoding(s) {
        assert(s <= 0x7F ==> (((s & 0x7F) as u8 == 10u8) <==> (s == 10u32))) by (bit_vector);
        if s == 10 {
            char_u32_cast(c, 10);
            char_u32_cast('\n', 10);
            assert(e[0] == 10u8);
            assert(nl_count(e, 1) == 1);
        } else {
            if c == '\n' {
                assert(s == 10);
            }
            assert(e[0] != 10u8);
            assert(nl_count(e, 1) == 0);
        }
    } else {
        if c == '\n' {
            assert(s == 10);
            assert(has_width_1_encoding(10u32));
        }
        assert((0xC0u8 | (((s >> 6) & 0x1F) as u8)) != 10u8) by (bit_vector);
        assert((0xE0u8 | (((s >> 12) & 0x0F) as u8)) != 10u8) by (bit_vector);
        assert((0xF0u8 | (((s >> 18) & 0x7) as u8)) != 10u8) by (bit_vector);
        assert((0x80u8 | ((s & 0x3F) as u8)) != 10u8) by (bit_vector);
        assert((0x80u8 | (((s >> 6) & 0x3F) as u8)) != 10u8) by (bit_vector);
        assert((0x80u8 | (((s >> 12) & 0x3F) as u8)) != 10u8) by (bit_vector);
        if has_width_2_encoding(s) {
            assert(e == seq![leading_byte_width_2(s), last_continuation_byte(s)]);
            assert(nl_count(e, 2) == 0);
        } else if has_width_3_encoding(s) {
            assert(nl_count(e, 3) == 0);
        } else {
            assert(nl_count(e, 4) == 0);
        }
    }
}

/// Counting terminator bytes counts terminator characters: the UTF-8
/// bytes of a text hold exactly as many terminator bytes as the text
/// holds `'\n'` characters.
pub proof fn lemma_terminator_bytes_count_chars(chars: Seq<char>)
    ensures
        nl_count(encode_utf8(chars), encode_utf8(chars).len() as int) == char_nl_count(chars),
    decreases chars.len(),
{
    if chars.len() > 0 {
        let head = encode_scalar(chars[0] as u32);
        let rest = encode_utf8(chars.drop_first());
        lemma_terminator_bytes_count_chars(chars.drop_first());
        lemma_scalar_nl(chars[0]);
        lemma_nl_count_concat(head, rest, rest.len() as int);
        assert(encode_utf8(chars) == head + rest);
    }
}

/// The line at the end of a text is one more than the number of `'\n'`
/// characters in it.
pub proof fn lemma_line_counts_newline_chars(s: &str)
    ensures
        spec_line(s.spec_bytes(), s.spec_bytes().len() as int) == 1 + char_nl_count(s@),
{
    lemma_terminator_bytes_count_chars(s@);
}

/// Translates a byte offset in `b` into `(line, column)`: `line` is one
/// more than the number of line terminators strictly before `offset`,
/// `column` the distance from where that line starts. Total in `offset`:
/// an offset beyond the text is measured from the line its bytes would
/// extend.
pub fn line_col_from_bytes(b: &[u8], offset: usize) -> (r: (usize, usize))
    requires
        b@.len() < usize::MAX,
    ensures
        r.0 == spec_line(b@, offset as int),
        r.1 == spec_col(b@, offset as int),
{
    let n: usize = b.len();
    let mut i: usize = 0;
    let mut count: usize = 0;
    let mut start: usize = 0;
    while i < offset && i < n
        invariant
            n == b@.len(),
            n < usize::MAX,
            i <= offset,
            i <= n,
            count <= i,
            start <= i,
            count == nl_count(b@, i as int),
            start == line_start(b@, i as int),
        decreases offset - i,
    {
        if b[i] == 10u8 {
            count = count + 1;
            start = i + 1;
        }
        i = i + 1;
    }
    proof {
        if i < offset {
            lemma_beyond_len(b@, offset as int);
        }
    }
    (count + 1, offset - start)
}

} // verus!
