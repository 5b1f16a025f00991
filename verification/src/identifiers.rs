use vstd::prelude::*;

use crate::text::{chars_of, same_text, valid_bounded_text, valid_bounded_text_spec};

verus! {

/// An ASCII letter or digit.
pub open spec fn is_ascii_alnum(c: char) -> bool {
    ('a' <= c && c <= 'z') || ('A' <= c && c <= 'Z') || ('0' <= c && c <= '9')
}

/// A character allowed in portable identifiers: ASCII letters, digits, `.`, `_` and `-`.
pub open spec fn is_portable_char(c: char) -> bool {
    is_ascii_alnum(c) || c == '.' || c == '_' || c == '-'
}

/// A lowercase hexadecimal digit.
pub open spec fn is_lower_hex(c: char) -> bool {
    ('0' <= c && c <= '9') || ('a' <= c && c <= 'f')
}

/// Decides [`is_ascii_alnum`].
pub fn ascii_alnum(c: char) -> (result: bool)
    ensures
        result == is_ascii_alnum(c),
{
    ('a' <= c && c <= 'z') || ('A' <= c && c <= 'Z') || ('0' <= c && c <= '9')
}

/// Decides [`is_portable_char`].
pub fn portable_char(c: char) -> (result: bool)
    ensures
        result == is_portable_char(c),
{
    ascii_alnum(c) || c == '.' || c == '_' || c == '-'
}

/// Decides [`is_lower_hex`].
pub fn lower_hex_char(c: char) -> (result: bool)
    ensures
        result == is_lower_hex(c),
{
    ('0' <= c && c <= '9') || ('a' <= c && c <= 'f')
}

/// A portable identifier of at most `max_len` characters: it starts with an
/// ASCII letter or digit and holds only portable characters (all ASCII, so its
/// byte length equals its character count).
pub open spec fn portable_id_spec(s: Seq<char>, max_len: int) -> bool {
    &&& 0 < s.len() <= max_len
    &&& is_ascii_alnum(s[0])
    &&& forall|i: int| 0 <= i < s.len() ==> is_portable_char(#[trigger] s[i])
}

/// Decides [`portable_id_spec`] on a character slice.
pub fn portable_chars(chars: &[char], max_len: usize) -> (result: bool)
    ensures
        result == portable_id_spec(chars@, max_len as int),
{
    if chars.len() == 0 || chars.len() > max_len || !ascii_alnum(chars[0]) {
        return false;
    }
    let mut i: usize = 0;
    while i < chars.len()
        invariant
            0 <= i <= chars@.len(),
            forall|j: int| 0 <= j < i ==> is_portable_char(#[trigger] chars@[j]),
        decreases chars@.len() - i,
    {
        if !portable_char(chars[i]) {
            return false;
        }
        i = i + 1;
    }
    true
}

/// Whether `value` is a portable identifier of at most `max_bytes` bytes.
pub fn valid_portable_id(value: &str, max_bytes: usize) -> (result: bool)
    ensures
        result == portable_id_spec(value@, max_bytes as int),
{
    let chars = chars_of(value);
    portable_chars(&chars, max_bytes)
}

/// `s` begins with `prefix`.
pub open spec fn has_prefix(s: Seq<char>, prefix: Seq<char>) -> bool {
    prefix.len() <= s.len() && s.take(prefix.len() as int) == prefix
}

/// Whether `chars` begins with `prefix`.
pub fn chars_start_with(chars: &[char], prefix: &[char]) -> (result: bool)
    ensures
        result == has_prefix(chars@, prefix@),
{
    if prefix.len() > chars.len() {
        return false;
    }
    let mut i: usize = 0;
    while i < prefix.len()
        invariant
            prefix@.len() <= chars@.len(),
            0 <= i <= prefix@.len(),
            forall|j: int| 0 <= j < i ==> chars@[j] == prefix@[j],
        decreases prefix@.len() - i,
    {
        if chars[i] != prefix[i] {
            assert(chars@.take(prefix@.len() as int)[i as int] != prefix@[i as int]);
            return false;
        }
        i = i + 1;
    }
    assert(chars@.take(prefix@.len() as int) =~= prefix@);
    true
}

/// The characters of `chars` from index `start` on.
pub fn chars_from(chars: &[char], start: usize) -> (rest: Vec<char>)
    requires
        start <= chars@.len(),
    ensures
        rest@ == chars@.skip(start as int),
{
    let mut rest: Vec<char> = Vec::new();
    let mut i: usize = start;
    while i < chars.len()
        invariant
            start <= i <= chars@.len(),
            rest@ == chars@.subrange(start as int, i as int),
        decreases chars@.len() - i,
    {
        rest.push(chars[i]);
        assert(chars@.subrange(start as int, i + 1) =~= chars@.subrange(start as int, i as int).push(
            chars@[i as int],
        ));
        i = i + 1;
    }
    assert(chars@.subrange(start as int, chars@.len() as int) =~= chars@.skip(start as int));
    rest
}

/// An identifier made of `prefix` and a non-empty portable suffix, at most
/// `max_len` characters in all.
pub open spec fn prefixed_id_spec(s: Seq<char>, prefix: Seq<char>, max_len: int) -> bool {
    &&& has_prefix(s, prefix)
    &&& portable_id_spec(s.skip(prefix.len() as int), max_len - prefix.len())
}

/// Whether `value` is `prefix` followed by a non-empty portable identifier,
/// within `max_bytes` bytes in all.
pub fn valid_prefixed_id(value: &str, prefix: &str, max_bytes: usize) -> (result: bool)
    requires
        vstd::utf8::is_ascii_chars(prefix@),
        prefix@.len() <= max_bytes,
    ensures
        result == prefixed_id_spec(value@, prefix@, max_bytes as int),
{
    let chars = chars_of(value);
    let prefix_chars = chars_of(prefix);
    if !chars_start_with(&chars, &prefix_chars) {
        return false;
    }
    let suffix = chars_from(&chars, prefix_chars.len());
    portable_chars(&suffix, max_bytes - prefix_chars.len())
}

/// `run_` followed by a portable identifier, at most 160 characters.
pub open spec fn run_id_spec(s: Seq<char>) -> bool {
    prefixed_id_spec(s, "run_"@, 160)
}

/// `artifact_` followed by a portable identifier, at most 160 characters.
pub open spec fn artifact_ref_spec(s: Seq<char>) -> bool {
    prefixed_id_spec(s, "artifact_"@, 160)
}

/// A run identifier: `run_` and a portable identifier, at most 160 characters.
pub fn run_id_is_valid(value: &str) -> (result: bool)
    ensures
        result == run_id_spec(value@),
{
    proof {
        reveal_strlit("run_");
    }
    valid_prefixed_id(value, "run_", 160)
}

/// An artifact reference: `artifact_` and a portable identifier, at most 160 characters.
pub fn artifact_ref_is_valid(value: &str) -> (result: bool)
    ensures
        result == artifact_ref_spec(value@),
{
    proof {
        reveal_strlit("artifact_");
    }
    valid_prefixed_id(value, "artifact_", 160)
}

/// A portable identifier of at most 160 characters.
pub fn portable_id(value: &str) -> (result: bool)
    ensures
        result == portable_id_spec(value@, 160),
{
    valid_portable_id(value, 160)
}

/// The content-hash form `sha256:` followed by 64 lowercase hexadecimal digits.
pub open spec fn sha256_ref_spec(s: Seq<char>) -> bool {
    &&& s.len() == 71
    &&& has_prefix(s, "sha256:"@)
    &&& forall|i: int| 7 <= i < 71 ==> is_lower_hex(#[trigger] s[i])
}

/// Whether every character of `chars` from `start` on is a lowercase hex digit.
pub fn lower_hex_from(chars: &[char], start: usize) -> (result: bool)
    ensures
        result == (forall|i: int| start <= i < chars@.len() ==> is_lower_hex(#[trigger] chars@[i])),
{
    let mut i: usize = start;
    while i < chars.len()
        invariant
            start <= i,
            forall|j: int| start <= j < i ==> is_lower_hex(#[trigger] chars@[j]),
        decreases chars@.len() - i,
    {
        if !lower_hex_char(chars[i]) {
            return false;
        }
        i = i + 1;
    }
    true
}

/// Whether `value` is a canonical `sha256:<64 lowercase hex>` content hash.
pub fn is_sha256(value: &str) -> (result: bool)
    ensures
        result == sha256_ref_spec(value@),
{
    proof {
        reveal_strlit("sha256:");
    }
    let chars = chars_of(value);
    let prefix = chars_of("sha256:");
    chars.len() == 71 && chars_start_with(&chars, &prefix) && lower_hex_from(&chars, 7)
}

/// A media receipt identifier: 64 lowercase hexadecimal digits.
pub open spec fn receipt_id_spec(s: Seq<char>) -> bool {
    s.len() == 64 && forall|i: int| 0 <= i < 64 ==> is_lower_hex(#[trigger] s[i])
}

/// Whether `value` is a media receipt identifier.
pub fn receipt_id_is_valid(value: &str) -> (result: bool)
    ensures
        result == receipt_id_spec(value@),
{
    let chars = chars_of(value);
    chars.len() == 64 && lower_hex_from(&chars, 0)
}

/// A character allowed in idempotency keys.
pub open spec fn is_key_char(c: char) -> bool {
    is_ascii_alnum(c) || c == '.' || c == '_' || c == ':' || c == '-'
}

/// An idempotency key: 8 to 256 characters, the first an ASCII letter or digit,
/// all of them letters, digits, `.`, `_`, `:` or `-`.
pub open spec fn idempotency_key_spec(s: Seq<char>) -> bool {
    &&& 8 <= s.len() <= 256
    &&& is_ascii_alnum(s[0])
    &&& forall|i: int| 0 <= i < s.len() ==> is_key_char(#[trigger] s[i])
}

/// Whether `value` is an acceptable idempotency key.
pub fn valid_idempotency_key(value: &str) -> (result: bool)
    ensures
        result == idempotency_key_spec(value@),
{
    let chars = chars_of(value);
    if chars.len() < 8 || chars.len() > 256 || !ascii_alnum(chars[0]) {
        return false;
    }
    let mut i: usize = 0;
    while i < chars.len()
        invariant
            chars@ == value@,
            0 <= i <= chars@.len(),
            forall|j: int| 0 <= j < i ==> is_key_char(#[trigger] chars@[j]),
        decreases chars@.len() - i,
    {
        let c = chars[i];
        if !(ascii_alnum(c) || c == '.' || c == '_' || c == ':' || c == '-') {
            assert(!is_key_char(chars@[i as int]));
            assert(!idempotency_key_spec(value@));
            return false;
        }
        i = i + 1;
    }
    true
}

/// The texts of `values`.
pub open spec fn texts(values: Seq<String>) -> Seq<Seq<char>> {
    values.map_values(|v: String| v@)
}

/// No two entries of `s` are equal.
pub open spec fn all_distinct<T>(s: Seq<T>) -> bool {
    forall|i: int, j: int| 0 <= i < j < s.len() ==> s[i] != s[j]
}

/// Whether the strings of `values` are pairwise different.
pub fn strings_distinct(values: &[String]) -> (result: bool)
    ensures
        result == all_distinct(texts(values@)),
{
    let n = values.len();
    let mut i: usize = 0;
    while i < n
        invariant
            n == values@.len(),
            0 <= i <= n,
            forall|a: int, b: int| 0 <= a < b < n && a < i ==> values@[a]@ != values@[b]@,
        decreases n - i,
    {
        let mut j: usize = i + 1;
        while j < n
            invariant
                n == values@.len(),
                0 <= i < n,
                i + 1 <= j <= n,
                forall|a: int, b: int| 0 <= a < b < n && a < i ==> values@[a]@ != values@[b]@,
                forall|b: int| i < b < j ==> values@[i as int]@ != values@[b]@,
            decreases n - j,
        {
            if values[i] == values[j] {
                assert(texts(values@)[i as int] == texts(values@)[j as int]);
                return false;
            }
            j = j + 1;
        }
        i = i + 1;
    }
    assert forall|a: int, b: int| 0 <= a < b < texts(values@).len() implies texts(values@)[a]
        != texts(values@)[b] by {
        assert(values@[a]@ != values@[b]@);
    }
    true
}

/// A bounded set of traceability strings: at most 1024 distinct entries, each
/// 1 to 512 characters without control characters.
pub open spec fn string_set_spec(values: Seq<Seq<char>>) -> bool {
    &&& values.len() <= 1024
    &&& forall|i: int| 0 <= i < values.len() ==> valid_bounded_text_spec(#[trigger] values[i], 512, false)
    &&& all_distinct(values)
}

/// Whether `values` is a bounded set of traceability strings.
pub fn valid_string_set(values: &[String]) -> (result: bool)
    ensures
        result == string_set_spec(texts(values@)),
{
    if values.len() > 1024 {
        return false;
    }
    let mut i: usize = 0;
    while i < values.len()
        invariant
            0 <= i <= values@.len(),
            forall|j: int| 0 <= j < i ==> valid_bounded_text_spec(#[trigger] texts(values@)[j], 512, false),
        decreases values@.len() - i,
    {
        if !valid_bounded_text(values[i].as_str(), 512, false) {
            assert(!valid_bounded_text_spec(texts(values@)[i as int], 512, false));
            return false;
        }
        i = i + 1;
    }
    strings_distinct(values)
}

/// Whether two lists of strings hold the same texts in the same order.
pub fn same_texts(a: &[String], b: &[String]) -> (result: bool)
    ensures
        result == (texts(a@) == texts(b@)),
{
    if a.len() != b.len() {
        assert(texts(a@).len() != texts(b@).len());
        return false;
    }
    let mut i: usize = 0;
    while i < a.len()
        invariant
            a@.len() == b@.len(),
            0 <= i <= a@.len(),
            forall|j: int| 0 <= j < i ==> texts(a@)[j] == texts(b@)[j],
        decreases a@.len() - i,
    {
        if !same_text(a[i].as_str(), b[i].as_str()) {
            assert(texts(a@)[i as int] != texts(b@)[i as int]);
            return false;
        }
        i = i + 1;
    }
    assert(texts(a@) =~= texts(b@));
    true
}

} // verus!
