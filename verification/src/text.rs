//! Text on the two sides of the boundary: a `String` on this side, UTF-8
//! bytes on the other.

use crate::c_string::has_nul;
use vstd::prelude::*;
use vstd::utf8::*;

verus! {

/// Whether `text` can be handed over as a zero-ended string: its UTF-8 form
/// holds no zero byte, at which a reader would stop.
pub open spec fn fits_c_string(text: Seq<char>) -> bool {
    !has_nul(encode_utf8(text))
}

/// The text that `String::from_utf8_lossy` makes of `bytes`.
pub uninterp spec fn utf8_lossy(bytes: Seq<u8>) -> Seq<char>;

/// The text that bytes from the other side are read as: their decoding
/// where they are UTF-8, and otherwise the text in which each malformed part
/// has been replaced.
pub open spec fn text_of(bytes: Seq<u8>) -> Seq<char> {
    if valid_utf8(bytes) {
        decode_utf8(bytes)
    } else {
        utf8_lossy(bytes)
    }
}

/// Calls `String::from_utf8_lossy` and takes ownership of what it returns.
/// Not proved: that the result depends on the bytes alone, and that bytes
/// which are valid UTF-8 come back as the text they encode, nothing replaced.
#[verifier::external_body]
pub(crate) fn from_utf8_lossy(bytes: &[u8]) -> (text: String)
    ensures
        text@ == utf8_lossy(bytes@),
        valid_utf8(bytes@) ==> text@ == decode_utf8(bytes@),
{
    String::from_utf8_lossy(bytes).into_owned()
}

/// Text that was encoded as UTF-8 is read back unchanged.
pub proof fn lemma_text_of_encoding(text: Seq<char>)
    ensures
        text_of(encode_utf8(text)) == text,
{
    encode_utf8_valid_utf8(text);
    encode_utf8_decode_utf8(text);
}

proof fn lemma_leading_byte_is_zero_only_for_zero(scalar: u32)
    by (bit_vector)
    requires
        scalar <= 0x7F,
    ensures
        ((scalar & 0x7F) as u8 == 0u8) <==> scalar == 0,
{
}

proof fn lemma_marked_bytes_are_not_zero(bits: u8)
    by (bit_vector)
    ensures
        0x80u8 | bits != 0u8,
        0xC0u8 | bits != 0u8,
        0xE0u8 | bits != 0u8,
        0xF0u8 | bits != 0u8,
{
}

/// The encoding of one character holds a zero byte exactly when the
/// character is U+0000.
proof fn lemma_scalar_has_nul(c: char)
    ensures
        has_nul(encode_scalar(c as u32)) <==> c == '\0',
{
    let scalar = c as u32;
    let bytes = encode_scalar(scalar);
    char_is_scalar(c);
    if has_width_1_encoding(scalar) {
        lemma_leading_byte_is_zero_only_for_zero(scalar);
        if c == '\0' {
            assert(bytes[0] == 0u8);
        }
    } else {
        assert(c != '\0');
        lemma_marked_bytes_are_not_zero(((scalar >> 6) & 0x1F) as u8);
        lemma_marked_bytes_are_not_zero(((scalar >> 12) & 0x0F) as u8);
        lemma_marked_bytes_are_not_zero(((scalar >> 18) & 0x7) as u8);
        lemma_marked_bytes_are_not_zero((scalar & 0x3F) as u8);
        lemma_marked_bytes_are_not_zero(((scalar >> 6) & 0x3F) as u8);
        lemma_marked_bytes_are_not_zero(((scalar >> 12) & 0x3F) as u8);
        assert forall|i: int| 0 <= i < bytes.len() implies bytes[i] != 0u8 by {}
    }
}

/// The UTF-8 bytes of a text hold a zero byte exactly when the text holds
/// the character U+0000: no other character has a zero byte in its encoding.
pub proof fn lemma_nul_byte_iff_nul_char(text: Seq<char>)
    ensures
        has_nul(encode_utf8(text)) <==> text.contains('\0'),
        fits_c_string(text) <==> !text.contains('\0'),
    decreases text.len(),
{
    if text.len() == 0 {
        assert(encode_utf8(text) =~= Seq::<u8>::empty());
    } else {
        let head = encode_scalar(text[0] as u32);
        let rest = text.drop_first();
        let tail = encode_utf8(rest);
        lemma_scalar_has_nul(text[0]);
        lemma_nul_byte_iff_nul_char(rest);
        assert(encode_utf8(text) == head + tail);
        if has_nul(head) {
            let i = choose|i: int| 0 <= i < head.len() && head[i] == 0u8;
            assert((head + tail)[i] == 0u8);
            assert(text[0] == '\0');
        }
        if has_nul(tail) {
            let i = choose|i: int| 0 <= i < tail.len() && tail[i] == 0u8;
            assert((head + tail)[head.len() + i] == 0u8);
            let k = choose|k: int| 0 <= k < rest.len() && rest[k] == '\0';
            assert(text[k + 1] == '\0');
        }
        if has_nul(head + tail) {
            let i = choose|i: int| 0 <= i < (head + tail).len() && (head + tail)[i] == 0u8;
            if i < head.len() {
                assert(head[i] == 0u8);
            } else {
                assert(tail[i - head.len()] == 0u8);
            }
        }
        if text.contains('\0') {
            let k = choose|k: int| 0 <= k < text.len() && text[k] == '\0';
            if k > 0 {
                assert(rest[k - 1] == '\0');
            }
        }
    }
}

} // verus!
