//! Text as it crosses the engine boundary: zero-terminated UTF-8 in a buffer on the
//! way in, decimal digits for a numeric magnitude on the way out.

use crate::error::{Error, ErrorView};
use vstd::prelude::*;
use vstd::slice::slice_subrange;
use vstd::utf8::{
    char_is_scalar, char_u32_cast, decode_utf8, encode_scalar, encode_utf8, encode_utf8_decode_utf8,
    encode_utf8_valid_utf8, valid_utf8,
};

verus! {

/// The first position at or after `start` at which `buffer` holds a zero byte, or
/// the buffer's length where it holds none there.
pub open spec fn terminator_from(buffer: Seq<u8>, start: int) -> int
    decreases buffer.len() - start,
{
    if 0 <= start < buffer.len() && buffer[start] != 0 {
        terminator_from(buffer, start + 1)
    } else {
        start
    }
}

/// The bytes of the text that a buffer holds: those before its first zero byte,
/// all of them where none is zero.
pub open spec fn c_text(buffer: Seq<u8>) -> Seq<u8> {
    buffer.take(terminator_from(buffer, 0))
}

/// What decoding a buffer gives: its text where the bytes before the terminator
/// are valid UTF-8, a decoding failure with the caller's context where they are not.
pub open spec fn decoded(buffer: Seq<u8>, context: Seq<char>) -> Result<Seq<char>, ErrorView> {
    if valid_utf8(c_text(buffer)) {
        Ok(decode_utf8(c_text(buffer)))
    } else {
        Err(ErrorView::Decoding { context })
    }
}

/// The view of a text-or-error result.
pub open spec fn text_view(r: Result<String, Error>) -> Result<Seq<char>, ErrorView> {
    match r {
        Ok(s) => Ok(s@),
        Err(e) => Err(e@),
    }
}

/// The terminator lies within the buffer, no byte before it is zero, and where it
/// is not the buffer's end the byte at it is zero.
pub proof fn lemma_terminator(buffer: Seq<u8>, start: int)
    requires
        0 <= start <= buffer.len(),
    ensures
        start <= terminator_from(buffer, start) <= buffer.len(),
        forall|j: int| start <= j < terminator_from(buffer, start) ==> buffer[j] != 0,
        terminator_from(buffer, start) < buffer.len() ==> buffer[terminator_from(buffer, start)]
            == 0,
    decreases buffer.len() - start,
{
    if start < buffer.len() && buffer[start] != 0 {
        lemma_terminator(buffer, start + 1);
    }
}

/// A position that holds a zero byte, with none before it, is the terminator.
pub proof fn lemma_terminator_is(buffer: Seq<u8>, start: int, end: int)
    requires
        0 <= start <= end <= buffer.len(),
        forall|j: int| start <= j < end ==> buffer[j] != 0,
        end < buffer.len() ==> buffer[end] == 0,
    ensures
        terminator_from(buffer, start) == end,
    decreases end - start,
{
    if start < end {
        lemma_terminator_is(buffer, start + 1, end);
    }
}

/// Text without a zero byte, written with its terminator, reads back as itself,
/// whatever follows the terminator in the buffer.
pub proof fn lemma_terminated_text(text: Seq<u8>, rest: Seq<u8>)
    requires
        forall|i: int| 0 <= i < text.len() ==> text[i] != 0,
    ensures
        c_text(text.push(0) + rest) == text,
{
    let buffer = text.push(0) + rest;
    assert forall|j: int| 0 <= j < text.len() implies buffer[j] != 0 by {
        assert(buffer[j] == text[j]);
    }
    assert(buffer[text.len() as int] == 0);
    lemma_terminator_is(buffer, 0, text.len() as int);
    assert(buffer.take(text.len() as int) =~= text);
}

/// The text holds no zero character, so that it can be written with a terminator.
pub open spec fn without_zero(chars: Seq<char>) -> bool {
    forall|i: int| 0 <= i < chars.len() ==> chars[i] != '\0'
}

proof fn lemma_scalar_bytes(scalar: u32)
    by (bit_vector)
    requires
        scalar != 0,
    ensures
        scalar <= 0x7F ==> (scalar & 0x7F) as u8 != 0,
        0xC0 | ((scalar >> 6) & 0x1F) as u8 != 0,
        0xE0 | ((scalar >> 12) & 0x0F) as u8 != 0,
        0xF0 | ((scalar >> 18) & 0x7) as u8 != 0,
        0x80 | (scalar & 0x3F) as u8 != 0,
        0x80 | ((scalar >> 6) & 0x3F) as u8 != 0,
        0x80 | ((scalar >> 12) & 0x3F) as u8 != 0,
{
}

/// The UTF-8 encoding of a text without the zero character holds no zero byte.
pub proof fn lemma_encoding_has_no_zero(chars: Seq<char>)
    requires
        without_zero(chars),
    ensures
        forall|j: int| 0 <= j < encode_utf8(chars).len() ==> encode_utf8(chars)[j] != 0,
    decreases chars.len(),
{
    if chars.len() > 0 {
        let scalar = chars[0] as u32;
        assert(scalar != 0) by {
            if scalar == 0 {
                char_u32_cast(chars[0], 0u32);
                char_u32_cast('\0', 0u32);
            }
        }
        char_is_scalar(chars[0]);
        lemma_scalar_bytes(scalar);
        let head = encode_scalar(scalar);
        assert(forall|j: int| 0 <= j < head.len() ==> head[j] != 0);
        let rest = chars.drop_first();
        assert forall|i: int| 0 <= i < rest.len() implies rest[i] != '\0' by {
            assert(rest[i] == chars[i + 1]);
        }
        lemma_encoding_has_no_zero(rest);
        let tail = encode_utf8(rest);
        assert(encode_utf8(chars) == head + tail);
        assert forall|j: int| 0 <= j < encode_utf8(chars).len() implies encode_utf8(chars)[j]
            != 0 by {
            if j < head.len() {
                assert((head + tail)[j] == head[j]);
            } else {
                assert((head + tail)[j] == tail[j - head.len()]);
            }
        }
    }
}

/// A text without the zero character, encoded as UTF-8 and written with its
/// terminator, is decoded as itself, whatever follows the terminator in the buffer.
pub proof fn lemma_text_round_trip(chars: Seq<char>, rest: Seq<u8>, context: Seq<char>)
    requires
        without_zero(chars),
    ensures
        decoded(encode_utf8(chars).push(0) + rest, context) == Ok::<Seq<char>, ErrorView>(chars),
{
    lemma_encoding_has_no_zero(chars);
    lemma_terminated_text(encode_utf8(chars), rest);
    encode_utf8_valid_utf8(chars);
    encode_utf8_decode_utf8(chars);
}

/// The number of bytes before the first zero byte of `buffer`.
pub fn text_length(buffer: &[u8]) -> (n: usize)
    ensures
        n == terminator_from(buffer@, 0),
{
    let mut i: usize = 0;
    while i < buffer.len() && buffer[i] != 0
        invariant
            i <= buffer.len(),
            terminator_from(buffer@, 0) == terminator_from(buffer@, i as int),
        decreases buffer.len() - i,
    {
        i += 1;
    }
    i
}

/// `std::str::from_utf8`: the string slice that the bytes encode, where they are
/// valid UTF-8, and nothing where they are not.
#[verifier::external_body]
fn str_from_utf8(bytes: &[u8]) -> (r: Option<&str>)
    ensures
        match r {
            Some(s) => valid_utf8(bytes@) && s@ == decode_utf8(bytes@),
            None => !valid_utf8(bytes@),
        },
{
    std::str::from_utf8(bytes).ok()
}

/// Reads the zero-terminated text that the engine left in `buffer`.
pub fn decode_text(buffer: &[u8], context: &str) -> (r: Result<String, Error>)
    ensures
        text_view(r) == decoded(buffer@, context@),
{
    let end = text_length(buffer);
    proof {
        lemma_terminator(buffer@, 0);
    }
    let bytes = slice_subrange(buffer, 0, end);
    match str_from_utf8(bytes) {
        Some(s) => Ok(s.to_owned()),
        None => Err(Error::Decoding { context: context.to_owned() }),
    }
}

/// What `{:?}` prints for a string: the text in double quotes, with the characters
/// escaped that a string literal has to escape.
pub uninterp spec fn escaped(text: Seq<char>) -> Seq<char>;

/// `format!` with `{:?}` on a string slice: the text as a quoted and escaped
/// literal, a function of the text alone.
#[verifier::external_body]
pub(crate) fn format_quoted(text: &str) -> (quoted: String)
    ensures
        quoted@ == escaped(text@),
{
    format!("{:?}", text)
}

/// The decimal digit for a number below ten.
pub open spec fn digit(d: nat) -> char {
    if d == 0 {
        '0'
    } else if d == 1 {
        '1'
    } else if d == 2 {
        '2'
    } else if d == 3 {
        '3'
    } else if d == 4 {
        '4'
    } else if d == 5 {
        '5'
    } else if d == 6 {
        '6'
    } else if d == 7 {
        '7'
    } else if d == 8 {
        '8'
    } else {
        '9'
    }
}

/// The decimal digits of a number, most significant first, without leading zeros.
pub open spec fn decimal(n: nat) -> Seq<char>
    decreases n,
{
    if n < 10 {
        seq![digit(n)]
    } else {
        decimal(n / 10).push(digit(n % 10))
    }
}

fn digit_str(d: u64) -> (s: &'static str)
    requires
        d < 10,
    ensures
        s@ == seq![digit(d as nat)],
{
    proof {
        reveal_strlit("0");
        reveal_strlit("1");
        reveal_strlit("2");
        reveal_strlit("3");
        reveal_strlit("4");
        reveal_strlit("5");
        reveal_strlit("6");
        reveal_strlit("7");
        reveal_strlit("8");
        reveal_strlit("9");
    }
    let s = if d == 0 {
        "0"
    } else if d == 1 {
        "1"
    } else if d == 2 {
        "2"
    } else if d == 3 {
        "3"
    } else if d == 4 {
        "4"
    } else if d == 5 {
        "5"
    } else if d == 6 {
        "6"
    } else if d == 7 {
        "7"
    } else if d == 8 {
        "8"
    } else {
        "9"
    };
    assert(s@ =~= seq![digit(d as nat)]);
    s
}

/// Writes a magnitude as decimal text.
pub fn decimal_string(n: u64) -> (s: String)
    ensures
        s@ == decimal(n as nat),
{
    let mut rest: u64 = n / 10;
    let mut s: String = digit_str(n % 10).to_owned();
    while rest > 0
        invariant
            decimal(n as nat) == (if rest > 0 {
                decimal(rest as nat)
            } else {
                Seq::<char>::empty()
            }) + s@,
        decreases rest,
    {
        let d = digit_str(rest % 10);
        let ghost before = s@;
        s = d.to_owned().concat(s.as_str());
        assert(s@ == seq![digit((rest % 10) as nat)] + before);
        assert(decimal(rest as nat) + before =~= (if rest / 10 > 0 {
            decimal((rest / 10) as nat)
        } else {
            Seq::<char>::empty()
        }) + s@);
        rest = rest / 10;
    }
    s
}

/// The numbers of a list in decimal, set apart by a comma and a space.
pub open spec fn enumerated(bytes: Seq<u8>) -> Seq<char>
    decreases bytes.len(),
{
    if bytes.len() == 0 {
        Seq::empty()
    } else if bytes.len() == 1 {
        decimal(bytes[0] as nat)
    } else {
        enumerated(bytes.drop_last()) + ", "@ + decimal(bytes.last() as nat)
    }
}

/// What `{:?}` prints for a list of bytes: the numbers in decimal, set apart by a
/// comma and a space, in square brackets.
pub open spec fn listed(bytes: Seq<u8>) -> Seq<char> {
    "["@ + enumerated(bytes) + "]"@
}

/// Writes a list of bytes as `{:?}` prints it.
pub fn byte_list(bytes: &[u8]) -> (list: String)
    ensures
        list@ == listed(bytes@),
{
    let mut list: String = "[".to_owned();
    let mut i: usize = 0;
    while i < bytes.len()
        invariant
            i <= bytes.len(),
            list@ == "["@ + enumerated(bytes@.take(i as int)),
        decreases bytes.len() - i,
    {
        let ghost before = list@;
        if i > 0 {
            list = list.concat(", ");
        }
        list = list.concat(decimal_string(bytes[i] as u64).as_str());
        proof {
            let taken = bytes@.take(i + 1);
            assert(taken.drop_last() =~= bytes@.take(i as int));
            assert(taken.last() == bytes@[i as int]);
            if i == 0 {
                assert(enumerated(bytes@.take(0)) =~= Seq::empty());
                assert(list@ =~= "["@ + enumerated(taken));
            } else {
                assert(list@ =~= "["@ + enumerated(taken));
            }
        }
        i += 1;
    }
    assert(bytes@.take(i as int) =~= bytes@);
    list.concat("]")
}

} // verus!
