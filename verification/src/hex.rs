use vstd::prelude::*;

use crate::identifiers::is_lower_hex;
use crate::text::push_char;

verus! {

/// The lowercase hexadecimal digit for `n` (0..16).
pub open spec fn lower_nibble(n: int) -> char {
    if n < 10 {
        (48 + n) as char
    } else {
        (87 + n) as char
    }
}

/// The uppercase hexadecimal digit for `n` (0..16).
pub open spec fn upper_nibble(n: int) -> char {
    if n < 10 {
        (48 + n) as char
    } else {
        (55 + n) as char
    }
}

/// Two lowercase hexadecimal digits per byte, most significant first.
pub open spec fn hex_lower(bytes: Seq<u8>) -> Seq<char>
    decreases bytes.len(),
{
    if bytes.len() == 0 {
        Seq::empty()
    } else {
        hex_lower(bytes.drop_last()).push(lower_nibble((bytes.last() / 16) as int)).push(
            lower_nibble((bytes.last() % 16) as int),
        )
    }
}

/// The lowercase hexadecimal digit for `n`.
pub fn lower_nibble_char(n: u8) -> (c: char)
    requires
        n < 16,
    ensures
        c == lower_nibble(n as int),
{
    if n < 10 {
        (48u8 + n) as char
    } else {
        (87u8 + n) as char
    }
}

/// The uppercase hexadecimal digit for `n`.
pub fn upper_nibble_char(n: u8) -> (c: char)
    requires
        n < 16,
    ensures
        c == upper_nibble(n as int),
{
    if n < 10 {
        (48u8 + n) as char
    } else {
        (55u8 + n) as char
    }
}

proof fn lemma_hex_lower_len(bytes: Seq<u8>)
    ensures
        hex_lower(bytes).len() == 2 * bytes.len(),
    decreases bytes.len(),
{
    if bytes.len() > 0 {
        lemma_hex_lower_len(bytes.drop_last());
    }
}

/// [`hex_lower`] writes two lowercase hexadecimal digits per byte.
pub proof fn lemma_hex_lower_digits(bytes: Seq<u8>)
    ensures
        hex_lower(bytes).len() == 2 * bytes.len(),
        forall|i: int| 0 <= i < hex_lower(bytes).len() ==> is_lower_hex(#[trigger] hex_lower(bytes)[i]),
    decreases bytes.len(),
{
    if bytes.len() > 0 {
        lemma_hex_lower_digits(bytes.drop_last());
        let b = bytes.last();
        assert(is_lower_hex(lower_nibble((b / 16) as int)));
        assert(is_lower_hex(lower_nibble((b % 16) as int)));
    }
}

/// Appends the lowercase hexadecimal digits of `bytes` to `output`.
fn append_hex_lower(output: &mut String, bytes: &[u8])
    ensures
        final(output)@ == old(output)@ + hex_lower(bytes@),
{
    let ghost start = output@;
    let mut i: usize = 0;
    while i < bytes.len()
        invariant
            0 <= i <= bytes@.len(),
            output@ == start + hex_lower(bytes@.take(i as int)),
        decreases bytes@.len() - i,
    {
        let b = bytes[i];
        assert(bytes@.take(i + 1).drop_last() =~= bytes@.take(i as int));
        push_char(output, lower_nibble_char(b / 16));
        assert(b % 16 < 16);
        push_char(output, lower_nibble_char(b % 16));
        i = i + 1;
    }
    assert(bytes@.take(bytes@.len() as int) =~= bytes@);
}

/// The lowercase hexadecimal encoding of `bytes`.
pub fn lowercase_hex(bytes: &[u8]) -> (hex: String)
    ensures
        hex@ == hex_lower(bytes@),
{
    let mut hex = String::new();
    append_hex_lower(&mut hex, bytes);
    hex
}

/// A digest in the canonical `sha256:<lowercase hex>` form.
pub fn format_sha256(bytes: &[u8]) -> (text: String)
    ensures
        text@ == "sha256:"@ + hex_lower(bytes@),
{
    let mut text = String::from_str("sha256:");
    append_hex_lower(&mut text, bytes);
    text
}

/// The first `length` lowercase hexadecimal digits of `bytes` (all of them
/// when there are fewer).
pub fn hex_prefix(bytes: &[u8], length: usize) -> (prefix: String)
    ensures
        prefix@ == hex_lower(bytes@).take(
            if length <= 2 * bytes@.len() { length as int } else { 2 * bytes@.len() as int },
        ),
{
    let full = lowercase_hex(bytes);
    proof {
        lemma_hex_lower_len(bytes@);
    }
    let chars = crate::text::chars_of(full.as_str());
    let mut prefix = String::new();
    let mut i: usize = 0;
    while i < chars.len() && i < length
        invariant
            chars@ == hex_lower(bytes@),
            chars@.len() == 2 * bytes@.len(),
            i <= length,
            0 <= i <= chars@.len(),
            prefix@ == chars@.take(i as int),
        decreases chars@.len() - i,
    {
        push_char(&mut prefix, chars[i]);
        assert(chars@.take(i + 1) =~= chars@.take(i as int).push(chars@[i as int]));
        i = i + 1;
    }
    prefix
}

/// The value of an ASCII hexadecimal digit (either case), 0 for any other byte.
pub open spec fn hex_value_spec(byte: u8) -> u8 {
    if 48 <= byte <= 57 {
        (byte - 48) as u8
    } else if 65 <= byte <= 70 {
        (byte - 55) as u8
    } else if 97 <= byte <= 102 {
        (byte - 87) as u8
    } else {
        0
    }
}

/// Computes [`hex_value_spec`].
pub fn hex_value(byte: u8) -> (value: u8)
    ensures
        value == hex_value_spec(byte),
        value < 16,
{
    if 48 <= byte && byte <= 57 {
        byte - 48
    } else if 65 <= byte && byte <= 70 {
        byte - 55
    } else if 97 <= byte && byte <= 102 {
        byte - 87
    } else {
        0
    }
}

} // verus!
