use vstd::prelude::*;
use vstd::utf8::encode_utf8;

verus! {

/// `String::push`: appends one character.
#[verifier::external_body]
pub(crate) fn push_char(text: &mut String, c: char)
    ensures
        final(text)@ == old(text)@.push(c),
{
    text.push(c);
}

/// The string holding exactly the given characters.
pub fn string_from_chars(chars: &[char]) -> (text: String)
    ensures
        text@ == chars@,
{
    let mut text = String::new();
    let mut i: usize = 0;
    while i < chars.len()
        invariant
            0 <= i <= chars@.len(),
            text@ == chars@.take(i as int),
        decreases chars@.len() - i,
    {
        push_char(&mut text, chars[i]);
        assert(chars@.take(i + 1) =~= chars@.take(i as int).push(chars@[i as int]));
        i = i + 1;
    }
    assert(chars@.take(chars@.len() as int) =~= chars@);
    text
}

proof fn lemma_encode_len(chars: Seq<char>)
    ensures
        encode_utf8(chars).len() >= chars.len(),
    decreases chars.len(),
{
    if chars.len() > 0 {
        lemma_encode_len(chars.drop_first());
    }
}

/// The characters of `value` (a `&str` never holds more characters than bytes).
pub fn chars_of(value: &str) -> (chars: Vec<char>)
    ensures
        chars@ == value@,
{
    let bytes = value.as_bytes();
    let _ = bytes.len();
    proof {
        lemma_encode_len(value@);
    }
    let mut chars: Vec<char> = Vec::new();
    for c in it: value.chars()
        invariant
            it.seq() == value@,
            chars@ == value@.take(it.index() as int),
            value@.len() <= usize::MAX,
    {
        assert(value@.take(it.index() + 1) =~= value@.take(it.index() as int).push(c));
        chars.push(c);
    }
    assert(value@.take(value@.len() as int) =~= value@);
    chars
}


/// A control character (general category Cc), as `char::is_control` decides.
pub open spec fn is_control_spec(c: char) -> bool {
    (c as u32) <= 0x1f || (0x7f <= (c as u32) && (c as u32) <= 0x9f)
}

/// A character with the Unicode White_Space property, as `char::is_whitespace` decides.
pub open spec fn is_whitespace_spec(c: char) -> bool {
    let u = c as u32;
    (0x09 <= u && u <= 0x0d) || u == 0x20 || u == 0x85 || u == 0xa0 || u == 0x1680 || (0x2000
        <= u && u <= 0x200a) || u == 0x2028 || u == 0x2029 || u == 0x202f || u == 0x205f || u
        == 0x3000
}

/// Decides [`is_control_spec`].
pub fn is_control(c: char) -> (result: bool)
    ensures
        result == is_control_spec(c),
{
    let u = c as u32;
    u <= 0x1f || (0x7f <= u && u <= 0x9f)
}

/// Decides [`is_whitespace_spec`].
pub fn is_whitespace(c: char) -> (result: bool)
    ensures
        result == is_whitespace_spec(c),
{
    let u = c as u32;
    (0x09 <= u && u <= 0x0d) || u == 0x20 || u == 0x85 || u == 0xa0 || u == 0x1680 || (0x2000
        <= u && u <= 0x200a) || u == 0x2028 || u == 0x2029 || u == 0x202f || u == 0x205f || u
        == 0x3000
}

/// No character of `s` is a control character.
pub open spec fn no_control(s: Seq<char>) -> bool {
    forall|i: int| 0 <= i < s.len() ==> !is_control_spec(#[trigger] s[i])
}

/// Decides [`no_control`] on a character vector.
pub fn chars_free_of_control(chars: &[char]) -> (result: bool)
    ensures
        result == no_control(chars@),
{
    let mut i: usize = 0;
    while i < chars.len()
        invariant
            0 <= i <= chars@.len(),
            forall|j: int| 0 <= j < i ==> !is_control_spec(#[trigger] chars@[j]),
        decreases chars@.len() - i,
    {
        if is_control(chars[i]) {
            return false;
        }
        i = i + 1;
    }
    true
}

/// Text with at most `max_chars` characters, at least one unless `allow_empty`,
/// and no control character.
pub open spec fn valid_bounded_text_spec(value: Seq<char>, max_chars: int, allow_empty: bool) -> bool {
    &&& (allow_empty || value.len() > 0)
    &&& value.len() <= max_chars
    &&& no_control(value)
}

/// Decides [`valid_bounded_text_spec`].
pub fn valid_bounded_text(value: &str, max_chars: usize, allow_empty: bool) -> (result: bool)
    ensures
        result == valid_bounded_text_spec(value@, max_chars as int, allow_empty),
{
    let chars = chars_of(value);
    (allow_empty || chars.len() > 0) && chars.len() <= max_chars && chars_free_of_control(&chars)
}

/// Text whose character count lies in `min_chars..=max_chars` with no control character.
pub open spec fn bounded_text_spec(value: Seq<char>, min_chars: int, max_chars: int) -> bool {
    &&& min_chars <= value.len() <= max_chars
    &&& no_control(value)
}

/// Decides [`bounded_text_spec`].
pub fn bounded_text(value: &str, min_chars: usize, max_chars: usize) -> (result: bool)
    ensures
        result == bounded_text_spec(value@, min_chars as int, max_chars as int),
{
    let chars = chars_of(value);
    min_chars <= chars.len() && chars.len() <= max_chars && chars_free_of_control(&chars)
}

/// The characters of `s` that are not whitespace, in order.
pub open spec fn strip_whitespace(s: Seq<char>) -> Seq<char>
    decreases s.len(),
{
    if s.len() == 0 {
        Seq::empty()
    } else if is_whitespace_spec(s.last()) {
        strip_whitespace(s.drop_last())
    } else {
        strip_whitespace(s.drop_last()).push(s.last())
    }
}

pub proof fn lemma_strip_whitespace_len(s: Seq<char>)
    ensures
        strip_whitespace(s).len() <= s.len(),
    decreases s.len(),
{
    if s.len() > 0 {
        lemma_strip_whitespace_len(s.drop_last());
    }
}

/// The characters of `value` without its whitespace, as compared when tracing
/// caption cues back to script narration.
pub fn normalize_caption_trace_text(value: &str) -> (normalized: Vec<char>)
    ensures
        normalized@ == strip_whitespace(value@),
{
    let chars = chars_of(value);
    let mut normalized: Vec<char> = Vec::new();
    let mut i: usize = 0;
    while i < chars.len()
        invariant
            chars@ == value@,
            0 <= i <= chars@.len(),
            normalized@ == strip_whitespace(chars@.take(i as int)),
        decreases chars@.len() - i,
    {
        let c = chars[i];
        assert(chars@.take(i + 1).drop_last() =~= chars@.take(i as int));
        if !is_whitespace(c) {
            normalized.push(c);
        }
        i = i + 1;
    }
    assert(chars@.take(chars@.len() as int) =~= chars@);
    normalized
}

/// The weight of a piece of text: its non-whitespace character count, at least one.
pub open spec fn text_weight_spec(text: Seq<char>) -> int {
    let n = strip_whitespace(text).len() as int;
    if n < 1 {
        1
    } else {
        n
    }
}

/// Dropping the whitespace of two texts joined is joining them with their
/// whitespace dropped.
proof fn lemma_strip_whitespace_concat(a: Seq<char>, b: Seq<char>)
    ensures
        strip_whitespace(a + b) == strip_whitespace(a) + strip_whitespace(b),
    decreases b.len(),
{
    if b.len() == 0 {
        assert(a + b =~= a);
        assert(strip_whitespace(a) + strip_whitespace(b) =~= strip_whitespace(a));
    } else {
        lemma_strip_whitespace_concat(a, b.drop_last());
        assert((a + b).drop_last() =~= a + b.drop_last());
        assert((a + b).last() == b.last());
        if !is_whitespace_spec(b.last()) {
            assert((strip_whitespace(a) + strip_whitespace(b.drop_last())).push(b.last())
                =~= strip_whitespace(a) + strip_whitespace(b.drop_last()).push(b.last()));
        }
    }
}

/// A text keeps a character through dropping whitespace exactly when it
/// holds a non-whitespace one.
proof fn lemma_strip_whitespace_empty(a: Seq<char>)
    ensures
        (strip_whitespace(a).len() == 0) <==> (forall|i: int| 0 <= i < a.len() ==> is_whitespace_spec(#[trigger] a[i])),
    decreases a.len(),
{
    if a.len() > 0 {
        lemma_strip_whitespace_empty(a.drop_last());
        if forall|i: int| 0 <= i < a.len() ==> is_whitespace_spec(#[trigger] a[i]) {
            assert(is_whitespace_spec(a[a.len() - 1]));
            assert forall|i: int| 0 <= i < a.drop_last().len() implies is_whitespace_spec(#[trigger] a.drop_last()[i]) by {
                assert(a.drop_last()[i] == a[i]);
            }
        } else {
            let k = choose|i: int| 0 <= i < a.len() && !is_whitespace_spec(#[trigger] a[i]);
            if k < a.len() - 1 {
                assert(a.drop_last()[k] == a[k]);
                assert(!(forall|i: int| 0 <= i < a.drop_last().len() ==> is_whitespace_spec(#[trigger] a.drop_last()[i])));
            }
        }
    }
}

/// The weight of a piece of cue text counts its non-whitespace characters,
/// and is at least 1: a text of whitespace only weighs 1, a single
/// non-whitespace character weighs 1, and two texts that each hold a
/// non-whitespace character weigh together the sum of their weights (so
/// "extraordinary" weighs 13 times what "a" weighs).
pub proof fn lemma_text_weight_counts_characters(a: Seq<char>, b: Seq<char>, c: char)
    ensures
        text_weight_spec(a) >= 1,
        (forall|i: int| 0 <= i < a.len() ==> is_whitespace_spec(#[trigger] a[i])) ==> text_weight_spec(a) == 1,
        !is_whitespace_spec(c) ==> text_weight_spec(seq![c]) == 1,
        (exists|i: int| 0 <= i < a.len() && !is_whitespace_spec(#[trigger] a[i])) && (exists|j: int|
            0 <= j < b.len() && !is_whitespace_spec(#[trigger] b[j])) ==> text_weight_spec(a + b)
            == text_weight_spec(a) + text_weight_spec(b),
{
    lemma_strip_whitespace_concat(a, b);
    lemma_strip_whitespace_empty(a);
    lemma_strip_whitespace_empty(b);
    let one = seq![c];
    assert(one.drop_last() =~= Seq::<char>::empty());
    assert(strip_whitespace(one.drop_last()) =~= Seq::<char>::empty());
}

/// Computes [`text_weight_spec`].
pub fn text_weight(text: &str) -> (weight: u64)
    ensures
        weight as int == text_weight_spec(text@),
{
    let normalized = normalize_caption_trace_text(text);
    let count = normalized.len();
    if count < 1 {
        1
    } else {
        count as u64
    }
}

/// `s` without leading and trailing whitespace.
pub open spec fn trim_spec(s: Seq<char>) -> Seq<char> {
    trim_end_spec(trim_start_spec(s))
}

/// `s` without leading whitespace.
pub open spec fn trim_start_spec(s: Seq<char>) -> Seq<char>
    decreases s.len(),
{
    if s.len() > 0 && is_whitespace_spec(s[0]) {
        trim_start_spec(s.drop_first())
    } else {
        s
    }
}

/// `s` without trailing whitespace.
pub open spec fn trim_end_spec(s: Seq<char>) -> Seq<char>
    decreases s.len(),
{
    if s.len() > 0 && is_whitespace_spec(s.last()) {
        trim_end_spec(s.drop_last())
    } else {
        s
    }
}

/// The characters of `chars` without leading and trailing whitespace.
pub fn trim_chars(chars: &[char]) -> (trimmed: Vec<char>)
    ensures
        trimmed@ == trim_spec(chars@),
{
    let n = chars.len();
    let mut start: usize = 0;
    assert(chars@.subrange(0, n as int) =~= chars@);
    while start < n && is_whitespace(chars[start])
        invariant
            n == chars@.len(),
            0 <= start <= n,
            trim_start_spec(chars@) == trim_start_spec(chars@.subrange(start as int, n as int)),
        decreases n - start,
    {
        let ghost rest = chars@.subrange(start as int, n as int);
        assert(rest.drop_first() =~= chars@.subrange(start + 1, n as int));
        start = start + 1;
    }
    let ghost middle = chars@.subrange(start as int, n as int);
    assert(trim_start_spec(middle) == middle);
    let mut end: usize = n;
    while end > start && is_whitespace(chars[end - 1])
        invariant
            n == chars@.len(),
            0 <= start <= end <= n,
            middle == chars@.subrange(start as int, n as int),
            trim_end_spec(middle) == trim_end_spec(chars@.subrange(start as int, end as int)),
        decreases end - start,
    {
        let ghost rest = chars@.subrange(start as int, end as int);
        assert(rest.drop_last() =~= chars@.subrange(start as int, end - 1));
        end = end - 1;
    }
    assert(trim_end_spec(chars@.subrange(start as int, end as int)) == chars@.subrange(start as int, end as int));
    let mut trimmed: Vec<char> = Vec::new();
    let mut i: usize = start;
    while i < end
        invariant
            0 <= start <= i <= end <= n,
            n == chars@.len(),
            trimmed@ == chars@.subrange(start as int, i as int),
        decreases end - i,
    {
        trimmed.push(chars[i]);
        assert(chars@.subrange(start as int, i + 1) =~= chars@.subrange(start as int, i as int).push(chars@[i as int]));
        i = i + 1;
    }
    trimmed
}


/// Whether two texts hold the same characters.
pub fn same_text(a: &str, b: &str) -> (result: bool)
    ensures
        result == (a@ == b@),
{
    let x = chars_of(a);
    let y = chars_of(b);
    crate::uri::chars_equal(&x, &y)
}


/// A copy of a list of strings.
pub fn copy_texts(values: &Vec<String>) -> (copy: Vec<String>)
    ensures
        copy@ == values@,
{
    let mut copy: Vec<String> = Vec::new();
    let mut k: usize = 0;
    while k < values.len()
        invariant
            0 <= k <= values@.len(),
            copy@ == values@.take(k as int),
        decreases values@.len() - k,
    {
        copy.push(values[k].clone());
        assert(values@.take(k + 1) =~= values@.take(k as int).push(values@[k as int]));
        k = k + 1;
    }
    assert(values@.take(values@.len() as int) =~= values@);
    copy
}

} // verus!
