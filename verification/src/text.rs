//! Text in a fixed-size byte buffer: the bytes before the first zero byte, or
//! the whole buffer where it holds none.
use crate::utf8::lemma_encoding_has_no_zero;
use vstd::prelude::*;
use vstd::utf8::*;

verus! {

/// Whether the text in `buf` stops at `end`: no byte before `end` is zero, and
/// `end` is either the place of a zero byte or the end of the buffer.
pub open spec fn is_text_end(buf: Seq<u8>, end: int) -> bool {
    &&& 0 <= end <= buf.len()
    &&& forall|i: int| 0 <= i < end ==> buf[i] != 0
    &&& end < buf.len() ==> buf[end] == 0
}

/// The length of the text in `buf`.
pub open spec fn text_len(buf: Seq<u8>) -> int {
    choose|end: int| is_text_end(buf, end)
}

/// The bytes of the text in `buf`.
pub open spec fn text_bytes(buf: Seq<u8>) -> Seq<u8> {
    buf.subrange(0, text_len(buf))
}

/// Whether a zero byte ends the text in `buf`, rather than the buffer's end.
pub open spec fn is_terminated(buf: Seq<u8>) -> bool {
    text_len(buf) < buf.len()
}

/// The text in `buf` read as UTF-8, or `None` where its bytes are not valid
/// UTF-8.
pub open spec fn decoded_text(buf: Seq<u8>) -> Option<Seq<char>> {
    if valid_utf8(text_bytes(buf)) {
        Some(decode_utf8(text_bytes(buf)))
    } else {
        None
    }
}

proof fn lemma_text_end_from(buf: Seq<u8>, i: int)
    requires
        0 <= i <= buf.len(),
        forall|j: int| 0 <= j < i ==> buf[j] != 0,
    ensures
        exists|end: int| is_text_end(buf, end),
    decreases buf.len() - i,
{
    if i == buf.len() || buf[i] == 0 {
        assert(is_text_end(buf, i));
    } else {
        lemma_text_end_from(buf, i + 1);
    }
}

/// Every buffer holds a text: `text_len` names a place where it stops.
pub proof fn lemma_text_len(buf: Seq<u8>)
    ensures
        is_text_end(buf, text_len(buf)),
{
    lemma_text_end_from(buf, 0);
}

/// The text in a buffer stops at one place only.
pub proof fn lemma_text_end_unique(buf: Seq<u8>, end: int)
    requires
        is_text_end(buf, end),
    ensures
        end == text_len(buf),
{
    lemma_text_len(buf);
    let other = text_len(buf);
    if end < other {
        assert(buf[end] == 0);
    } else if other < end {
        assert(buf[other] == 0);
    }
}

/// Finds where the text in `buf` stops: the place of the first zero byte, or
/// the buffer's length where no byte is zero.
pub fn text_end(buf: &[u8]) -> (end: usize)
    ensures
        is_text_end(buf@, end as int),
        end == text_len(buf@),
{
    let mut i: usize = 0;
    while i < buf.len() && buf[i] != 0
        invariant
            0 <= i <= buf.len(),
            forall|j: int| 0 <= j < i ==> buf@[j] != 0,
        decreases buf.len() - i,
    {
        i += 1;
    }
    proof {
        lemma_text_end_unique(buf@, i as int);
    }
    i
}

/// Writing a text without NUL characters into a buffer, followed by a zero
/// byte, and reading the buffer's text back gives exactly that text. What
/// lies behind the zero byte does not matter.
pub proof fn lemma_terminated_text_round_trip(text: Seq<char>, buf: Seq<u8>)
    requires
        !text.contains('\0'),
        encode_utf8(text).len() < buf.len(),
        buf.subrange(0, encode_utf8(text).len() as int) == encode_utf8(text),
        buf[encode_utf8(text).len() as int] == 0,
    ensures
        text_bytes(buf) == encode_utf8(text),
        decoded_text(buf) == Some(text),
{
    let bytes = encode_utf8(text);
    let n = bytes.len() as int;
    lemma_encoding_has_no_zero(text);
    assert forall|i: int| 0 <= i < n implies buf[i] != 0 by {
        assert(buf[i] == buf.subrange(0, n)[i]);
        assert(bytes.contains(bytes[i]));
    }
    lemma_text_end_unique(buf, n);
    encode_utf8_valid_utf8(text);
    encode_utf8_decode_utf8(text);
}

/// The characters that ASCII bytes stand for, one for each byte.
pub open spec fn ascii_chars(bytes: Seq<u8>) -> Seq<char> {
    Seq::new(bytes.len(), |i: int| bytes[i] as char)
}

/// A text made of ASCII bytes only is valid UTF-8 and reads byte for byte.
pub proof fn lemma_ascii_text(buf: Seq<u8>)
    requires
        forall|i: int| 0 <= i < text_len(buf) ==> buf[i] < 0x80,
    ensures
        decoded_text(buf) == Some(ascii_chars(text_bytes(buf))),
{
    lemma_text_len(buf);
    let bytes = text_bytes(buf);
    let chars = ascii_chars(bytes);
    assert(is_ascii_chars(chars));
    is_ascii_chars_encode_utf8(chars);
    assert(encode_utf8(chars) =~= bytes);
    encode_utf8_valid_utf8(chars);
    encode_utf8_decode_utf8(chars);
}

/// In a buffer without a zero byte the text is the whole buffer, so reading
/// it decodes the entire buffer, and fails exactly where the buffer is not
/// valid UTF-8.
pub proof fn lemma_unterminated_text(buf: Seq<u8>)
    requires
        !buf.contains(0u8),
    ensures
        text_bytes(buf) == buf,
        valid_utf8(buf) ==> decoded_text(buf) == Some(decode_utf8(buf)),
        !valid_utf8(buf) ==> decoded_text(buf) is None,
{
    assert forall|i: int| 0 <= i < buf.len() implies buf[i] != 0 by {
        assert(buf.contains(buf[i]));
    }
    lemma_text_end_unique(buf, buf.len() as int);
    assert(buf.subrange(0, buf.len() as int) == buf);
}

} // verus!
