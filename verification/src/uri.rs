use vstd::prelude::*;

use vstd::string::StringSliceAdditionalSpecFns;

use crate::hex::{upper_nibble, upper_nibble_char};
use crate::text::{push_char, string_from_chars};

verus! {

/// The pieces of `s` between occurrences of `separator`, read so far, and the
/// piece being read.
pub open spec fn split_scan(s: Seq<char>, separator: char) -> (Seq<Seq<char>>, Seq<char>)
    decreases s.len(),
{
    if s.len() == 0 {
        (Seq::empty(), Seq::empty())
    } else {
        let (done, current) = split_scan(s.drop_last(), separator);
        if s.last() == separator {
            (done.push(current), Seq::empty())
        } else {
            (done, current.push(s.last()))
        }
    }
}

/// The pieces of `s` between occurrences of `separator`, as `str::split` yields them.
pub open spec fn split_spec(s: Seq<char>, separator: char) -> Seq<Seq<char>> {
    let (done, current) = split_scan(s, separator);
    done.push(current)
}

/// Splitting `s + y`, where `y` holds no separator, only extends the piece
/// being read.
pub proof fn lemma_split_scan_plain_tail(s: Seq<char>, y: Seq<char>, separator: char)
    requires
        forall|i: int| 0 <= i < y.len() ==> y[i] != separator,
    ensures
        split_scan(s + y, separator) == (split_scan(s, separator).0, split_scan(s, separator).1 + y),
    decreases y.len(),
{
    if y.len() == 0 {
        assert(s + y =~= s);
        assert(split_scan(s, separator).1 + y =~= split_scan(s, separator).1);
    } else {
        lemma_split_scan_plain_tail(s, y.drop_last(), separator);
        assert((s + y).drop_last() =~= s + y.drop_last());
        assert((s + y).last() == y.last());
        assert((split_scan(s, separator).1 + y.drop_last()).push(y.last()) =~= split_scan(
            s,
            separator,
        ).1 + y);
    }
}

/// A text without separators is one piece.
pub proof fn lemma_split_single(x: Seq<char>, separator: char)
    requires
        forall|i: int| 0 <= i < x.len() ==> x[i] != separator,
    ensures
        split_spec(x, separator) == seq![x],
{
    lemma_split_scan_plain_tail(Seq::empty(), x, separator);
    assert(Seq::<char>::empty() + x =~= x);
    assert(Seq::<char>::empty() + x =~= x);
    assert(Seq::<Seq<char>>::empty().push(x) =~= seq![x]);
}

/// Appending a separator and a piece without separators appends that piece.
pub proof fn lemma_split_join(s: Seq<char>, y: Seq<char>, separator: char)
    requires
        forall|i: int| 0 <= i < y.len() ==> y[i] != separator,
    ensures
        split_spec(s.push(separator) + y, separator) == split_spec(s, separator).push(y),
{
    lemma_split_scan_plain_tail(s.push(separator), y, separator);
    assert(s.push(separator).drop_last() =~= s);
    assert(Seq::<char>::empty() + y =~= y);
}

/// Splits `chars` at every `separator` (see [`split_spec`]).
pub fn split_chars(chars: &[char], separator: char) -> (parts: Vec<Vec<char>>)
    ensures
        parts@.map_values(|p: Vec<char>| p@) == split_spec(chars@, separator),
{
    let mut parts: Vec<Vec<char>> = Vec::new();
    let mut current: Vec<char> = Vec::new();
    let mut i: usize = 0;
    while i < chars.len()
        invariant
            0 <= i <= chars@.len(),
            (parts@.map_values(|p: Vec<char>| p@), current@) == split_scan(chars@.take(i as int), separator),
        decreases chars@.len() - i,
    {
        let c = chars[i];
        assert(chars@.take(i + 1).drop_last() =~= chars@.take(i as int));
        assert(chars@.take(i + 1).last() == c);
        if c == separator {
            let ghost before = parts@.map_values(|p: Vec<char>| p@);
            let finished = current;
            current = Vec::new();
            parts.push(finished);
            assert(parts@.map_values(|p: Vec<char>| p@) =~= before.push(finished@));
        } else {
            current.push(c);
        }
        i = i + 1;
    }
    assert(chars@.take(chars@.len() as int) =~= chars@);
    let ghost before = parts@.map_values(|p: Vec<char>| p@);
    parts.push(current);
    assert(parts@.map_values(|p: Vec<char>| p@) =~= before.push(current@));
    parts
}

/// Whether two character slices are equal.
pub fn chars_equal(a: &[char], b: &[char]) -> (result: bool)
    ensures
        result == (a@ == b@),
{
    if a.len() != b.len() {
        return false;
    }
    let mut i: usize = 0;
    while i < a.len()
        invariant
            a@.len() == b@.len(),
            0 <= i <= a@.len(),
            forall|j: int| 0 <= j < i ==> a@[j] == b@[j],
        decreases a@.len() - i,
    {
        if a[i] != b[i] {
            return false;
        }
        i = i + 1;
    }
    assert(a@ =~= b@);
    true
}

/// The number of bytes that UTF-8 uses for `c`.
pub open spec fn utf8_width(c: char) -> int {
    let u = c as u32;
    if u < 0x80 {
        1
    } else if u < 0x800 {
        2
    } else if u < 0x10000 {
        3
    } else {
        4
    }
}

/// The UTF-8 byte length of `s`.
pub open spec fn utf8_length(s: Seq<char>) -> int
    decreases s.len(),
{
    if s.len() == 0 {
        0
    } else {
        utf8_length(s.drop_last()) + utf8_width(s.last())
    }
}

/// Whether `chars` takes exactly two bytes in UTF-8.
pub fn utf8_length_is_two(chars: &[char]) -> (result: bool)
    ensures
        result == (utf8_length(chars@) == 2),
{
    let mut total: u32 = 0;
    let mut i: usize = 0;
    while i < chars.len()
        invariant
            0 <= i <= chars@.len(),
            total as int == utf8_length(chars@.take(i as int)),
            total <= 2,
        decreases chars@.len() - i,
    {
        let u = chars[i] as u32;
        let width: u32 = if u < 0x80 {
            1
        } else if u < 0x800 {
            2
        } else if u < 0x10000 {
            3
        } else {
            4
        };
        assert(chars@.take(i + 1).drop_last() =~= chars@.take(i as int));
        if total + width > 2 {
            proof {
                lemma_utf8_length_grows(chars@, i as int + 1);
            }
            return false;
        }
        total = total + width;
        i = i + 1;
    }
    assert(chars@.take(chars@.len() as int) =~= chars@);
    total == 2
}

proof fn lemma_utf8_length_grows(s: Seq<char>, k: int)
    requires
        0 <= k <= s.len(),
    ensures
        utf8_length(s.take(k)) <= utf8_length(s),
    decreases s.len() - k,
{
    if k < s.len() {
        lemma_utf8_length_grows(s, k + 1);
        assert(s.take(k + 1).drop_last() =~= s.take(k));
    } else {
        assert(s.take(k) =~= s);
    }
}

/// A byte that percent-encoding of file names keeps as it is.
pub open spec fn is_file_name_safe_byte(b: u8) -> bool {
    (97 <= b <= 122) || (65 <= b <= 90) || (48 <= b <= 57) || b == 46 || b == 95 || b == 45
}

/// The encoding of one byte: the byte itself when safe, else `%` and two
/// uppercase hexadecimal digits.
pub open spec fn file_name_token(b: u8) -> Seq<char> {
    if is_file_name_safe_byte(b) {
        seq![b as char]
    } else {
        seq!['%', upper_nibble((b / 16) as int), upper_nibble((b % 16) as int)]
    }
}

/// The percent-encoding of `bytes`, stopping before the first token that would
/// make the output longer than `budget` characters.
pub open spec fn percent_encode_within(bytes: Seq<u8>, budget: int) -> Seq<char>
    decreases bytes.len(),
{
    if bytes.len() == 0 {
        Seq::empty()
    } else {
        let token = file_name_token(bytes[0]);
        if token.len() > budget {
            Seq::empty()
        } else {
            token + percent_encode_within(bytes.drop_first(), budget - token.len())
        }
    }
}

proof fn lemma_percent_encode_within_len(bytes: Seq<u8>, budget: int)
    ensures
        percent_encode_within(bytes, budget).len() <= if budget < 0 { 0 } else { budget },
    decreases bytes.len(),
{
    if bytes.len() > 0 {
        lemma_percent_encode_within_len(bytes.drop_first(), budget - file_name_token(bytes[0]).len());
    }
}

/// Appends the encoding of one byte (see [`file_name_token`]).
fn push_file_name_token(output: &mut String, b: u8)
    ensures
        final(output)@ == old(output)@ + file_name_token(b),
{
    if (97 <= b && b <= 122) || (65 <= b && b <= 90) || (48 <= b && b <= 57) || b == 46 || b == 95
        || b == 45 {
        push_char(output, b as char);
        assert(old(output)@.push(b as char) =~= old(output)@ + file_name_token(b));
    } else {
        push_char(output, '%');
        push_char(output, upper_nibble_char(b / 16));
        assert(b % 16 < 16);
        push_char(output, upper_nibble_char(b % 16));
        assert(old(output)@.push('%').push(upper_nibble((b / 16) as int)).push(
            upper_nibble((b % 16) as int),
        ) =~= old(output)@ + file_name_token(b));
    }
}

/// Percent-encodes `bytes` for a file name, stopping before the first token
/// that would exceed `max_length` characters.
pub fn percent_encode_file_name_bounded(bytes: &[u8], max_length: usize) -> (encoded: String)
    ensures
        encoded@ == percent_encode_within(bytes@, max_length as int),
{
    let mut encoded = String::new();
    let mut used: usize = 0;
    let mut i: usize = 0;
    assert(bytes@.skip(0) =~= bytes@);
    while i < bytes.len()
        invariant
            0 <= i <= bytes@.len(),
            used == encoded@.len(),
            used <= max_length,
            percent_encode_within(bytes@, max_length as int) == encoded@ + percent_encode_within(
                bytes@.skip(i as int),
                max_length - used,
            ),
        decreases bytes@.len() - i,
    {
        let b = bytes[i];
        let token_length: usize = if (97 <= b && b <= 122) || (65 <= b && b <= 90) || (48 <= b && b
            <= 57) || b == 46 || b == 95 || b == 45 {
            1
        } else {
            3
        };
        assert(token_length == file_name_token(b).len());
        assert(bytes@.skip(i as int)[0] == b);
        assert(bytes@.skip(i as int).drop_first() =~= bytes@.skip(i + 1));
        if token_length > max_length - used {
            assert(percent_encode_within(bytes@.skip(i as int), max_length - used) =~= Seq::empty());
            assert(encoded@ + Seq::<char>::empty() =~= encoded@);
            return encoded;
        }
        let ghost before = encoded@;
        push_file_name_token(&mut encoded, b);
        assert(before + percent_encode_within(bytes@.skip(i as int), max_length - used) =~= encoded@
            + percent_encode_within(bytes@.skip(i + 1), max_length - used - token_length));
        used = used + token_length;
        i = i + 1;
    }
    assert(percent_encode_within(bytes@.skip(i as int), max_length - used) =~= Seq::empty());
    assert(encoded@ + Seq::<char>::empty() =~= encoded@);
    encoded
}

/// Percent-encodes `bytes` for a file name without a length bound.
pub fn percent_encode_file_name(bytes: &[u8]) -> (encoded: String)
    ensures
        encoded@ == percent_encode_within(bytes@, usize::MAX as int),
{
    percent_encode_file_name_bounded(bytes, usize::MAX)
}

/// A byte that percent-encoding of URI segments keeps as it is.
pub open spec fn is_uri_unreserved_byte(b: u8) -> bool {
    (97 <= b <= 122) || (65 <= b <= 90) || (48 <= b <= 57) || b == 45 || b == 95 || b == 46 || b
        == 126
}

/// The percent-encoding of `bytes` as one URI segment.
pub open spec fn percent_encode_segment_spec(bytes: Seq<u8>) -> Seq<char>
    decreases bytes.len(),
{
    if bytes.len() == 0 {
        Seq::empty()
    } else {
        let b = bytes.last();
        percent_encode_segment_spec(bytes.drop_last()) + if is_uri_unreserved_byte(b) {
            seq![b as char]
        } else {
            seq!['%', upper_nibble((b / 16) as int), upper_nibble((b % 16) as int)]
        }
    }
}

/// Percent-encodes the UTF-8 bytes of `value` as one URI segment, keeping only
/// ASCII letters, digits, `-`, `_`, `.` and `~`.
pub fn percent_encode_uri_segment(value: &str) -> (encoded: String)
    ensures
        encoded@ == percent_encode_segment_spec(value.spec_bytes()),
{
    let bytes = value.as_bytes();
    let mut encoded = String::new();
    let mut i: usize = 0;
    while i < bytes.len()
        invariant
            bytes@ == value.spec_bytes(),
            0 <= i <= bytes@.len(),
            encoded@ == percent_encode_segment_spec(bytes@.take(i as int)),
        decreases bytes@.len() - i,
    {
        let b = bytes[i];
        assert(bytes@.take(i + 1).drop_last() =~= bytes@.take(i as int));
        let ghost before = encoded@;
        if (97 <= b && b <= 122) || (65 <= b && b <= 90) || (48 <= b && b <= 57) || b == 45 || b
            == 95 || b == 46 || b == 126 {
            push_char(&mut encoded, b as char);
            assert(encoded@ =~= before + seq![b as char]);
        } else {
            push_char(&mut encoded, '%');
            push_char(&mut encoded, upper_nibble_char(b / 16));
            assert(b % 16 < 16);
            push_char(&mut encoded, upper_nibble_char(b % 16));
            assert(encoded@ =~= before + seq![
                '%',
                upper_nibble((b / 16) as int),
                upper_nibble((b % 16) as int),
            ]);
        }
        i = i + 1;
    }
    assert(bytes@.take(bytes@.len() as int) =~= bytes@);
    encoded
}

} // verus!
