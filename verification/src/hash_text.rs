use vstd::prelude::*;
use vstd::utf8::encode_utf8;

use crate::digest::sha256_spec;
use crate::hex::hex_lower;
use crate::timeline_request::canonical_hash_spec;

verus! {

/// The canonical hash text of any bytes has a character boundary after its
/// `sha256:` prefix, so its digits can be sliced off from byte 7.
pub proof fn lemma_hash_text_splits_after_prefix(bytes: Seq<u8>)
    ensures
        vstd::utf8::is_char_boundary(encode_utf8(canonical_hash_spec(bytes)), 7),
{
    reveal_strlit("sha256:");
    let digits = hex_lower(sha256_spec(bytes));
    let chars = canonical_hash_spec(bytes);
    crate::hex::lemma_hex_lower_digits(sha256_spec(bytes));
    assert(chars == "sha256:"@ + digits);
    assert(vstd::utf8::is_ascii_chars(chars)) by {
        assert forall|i: int| 0 <= i < chars.len() implies '\0' <= #[trigger] chars[i] <= '\u{7f}' by {
            if i >= 7 {
                assert(chars[i] == digits[i - 7]);
                assert(crate::identifiers::is_lower_hex(digits[i - 7]));
            }
        }
    }
    vstd::utf8::is_ascii_chars_encode_utf8(chars);
    vstd::utf8::encode_utf8_valid_utf8(chars);
    let encoded = encode_utf8(chars);
    if chars.len() == 7 {
        vstd::utf8::is_char_boundary_start_end_of_seq(encoded);
    } else {
        let b = encoded[7];
        assert(b == chars[7] as u8);
        assert(b < 0x80);
        vstd::utf8::is_char_boundary_iff_is_leading_byte(encoded, 7);
    }
}

} // verus!
