//! UTF-8 decoding as the standard library does it, and what the encoding of a
//! text without NUL characters looks like.
use core::str::Utf8Error;
use vstd::prelude::*;
use vstd::utf8::*;

verus! {

/// `core::str::from_utf8`: strict decoding. It succeeds exactly on valid
/// UTF-8, and the string it returns is the given bytes read as text, so
/// encoding that string gives the bytes back.
pub assume_specification[ core::str::from_utf8 ](v: &[u8]) -> (r: Result<&str, Utf8Error>)
    ensures
        r is Ok <==> valid_utf8(v@),
        r matches Ok(s) ==> encode_utf8(s@) == v@,
;

/// The text that lossy decoding makes of `bytes`: valid sequences are
/// decoded, and each invalid one is replaced by U+FFFD.
pub uninterp spec fn utf8_lossy(bytes: Seq<u8>) -> Seq<char>;

/// `String::from_utf8_lossy`, copied into an owned string. The result is a
/// function of the bytes alone, and on valid UTF-8 it is the strict decoding.
#[verifier::external_body]
pub(crate) fn lossy_string(bytes: &[u8]) -> (s: String)
    ensures
        s@ == utf8_lossy(bytes@),
        valid_utf8(bytes@) ==> s@ == decode_utf8(bytes@),
{
    String::from_utf8_lossy(bytes).into_owned()
}

/// No byte of the encoding of a scalar other than zero is zero, whatever the
/// width of the encoding.
proof fn lemma_scalar_bytes_nonzero(c: u32)
    by (bit_vector)
    requires
        c != 0,
    ensures
        has_width_1_encoding(c) ==> leading_byte_width_1(c) != 0,
        leading_byte_width_2(c) != 0,
        leading_byte_width_3(c) != 0,
        leading_byte_width_4(c) != 0,
        last_continuation_byte(c) != 0,
        second_last_continuation_byte(c) != 0,
        third_last_continuation_byte(c) != 0,
{
}

/// The UTF-8 encoding of a text holds a zero byte only where the text holds
/// a NUL character.
pub proof fn lemma_encoding_has_no_zero(chars: Seq<char>)
    requires
        !chars.contains('\0'),
    ensures
        !encode_utf8(chars).contains(0u8),
    decreases chars.len(),
{
    if chars.len() > 0 {
        let head = encode_scalar(chars[0] as u32);
        let rest = chars.drop_first();
        assert(chars.contains(chars[0]));
        char_is_scalar(chars[0]);
        assert(chars[0] as u32 != 0) by {
            if chars[0] as u32 == 0 {
                char_u32_cast(chars[0], 0u32);
                char_u32_cast('\0', 0u32);
            }
        }
        lemma_scalar_bytes_nonzero(chars[0] as u32);
        assert forall|i: int| 0 <= i < head.len() implies head[i] != 0 by {}
        assert(!rest.contains('\0')) by {
            if rest.contains('\0') {
                let i = choose|i: int| 0 <= i < rest.len() && rest[i] == '\0';
                assert(chars[i + 1] == '\0');
            }
        }
        lemma_encoding_has_no_zero(rest);
        let tail = encode_utf8(rest);
        assert(encode_utf8(chars) == head + tail);
        if encode_utf8(chars).contains(0u8) {
            let j = choose|j: int| 0 <= j < (head + tail).len() && (head + tail)[j] == 0u8;
            if j < head.len() {
                assert(head[j] == 0);
            } else {
                assert(tail[j - head.len()] == 0);
                assert(tail.contains(0u8));
            }
        }
    }
}

} // verus!
