use vstd::prelude::*;

use crate::identifiers::{
    ascii_alnum, chars_from, chars_start_with, has_prefix, is_ascii_alnum, is_lower_hex,
    is_portable_char, lower_hex_from, portable_char,
};
use crate::storage_error::{StorageErrorCode, StorageOperation, StorageServiceError};
use crate::text::{chars_of, push_char, string_from_chars};
use crate::uri::{
    chars_equal, lemma_split_join, lemma_split_single, percent_encode_file_name,
    percent_encode_file_name_bounded, percent_encode_within, split_chars, split_spec, utf8_length,
    utf8_length_is_two,
};
use crate::digest::{sha256_digest, sha256_spec};
use crate::hex::{hex_lower, hex_prefix};
use vstd::utf8::encode_utf8;

verus! {

/// An uppercase hexadecimal digit.
pub open spec fn is_upper_hex(c: char) -> bool {
    ('0' <= c && c <= '9') || ('A' <= c && c <= 'F')
}

/// The value of an uppercase hexadecimal digit.
pub open spec fn upper_hex_value(c: char) -> int {
    if c <= '9' {
        c as int - 48
    } else {
        c as int - 55
    }
}

/// A byte that a staged file name may not carry as an escape: one that must
/// stay literal (letters, digits, `.`, `_`, `-`), a path separator, or a
/// control byte.
pub open spec fn forbidden_escape(decoded: int) -> bool {
    ||| (97 <= decoded <= 122) || (65 <= decoded <= 90) || (48 <= decoded <= 57)
    ||| decoded == 46 || decoded == 95 || decoded == 45
    ||| decoded == 47 || decoded == 92
    ||| decoded < 32 || decoded == 127
}

/// The characters of `s` from `i` on are literal portable characters or
/// `%XX` escapes with uppercase digits whose byte is not forbidden.
pub open spec fn staged_tail_ok(s: Seq<char>, i: int) -> bool
    decreases s.len() - i,
{
    if i < 0 || i >= s.len() {
        true
    } else if is_portable_char(s[i]) {
        staged_tail_ok(s, i + 1)
    } else if s[i] == '%' && i + 2 < s.len() && is_upper_hex(s[i + 1]) && is_upper_hex(s[i + 2]) {
        !forbidden_escape(upper_hex_value(s[i + 1]) * 16 + upper_hex_value(s[i + 2]))
            && staged_tail_ok(s, i + 3)
    } else {
        false
    }
}

/// A safe staged media file name: `source-` followed by the percent-encoded
/// original name, at most 200 characters (all ASCII, so also 200 bytes).
pub open spec fn staged_name_spec(s: Seq<char>) -> bool {
    &&& has_prefix(s, "source-"@)
    &&& s.len() <= 200
    &&& staged_tail_ok(s, 0)
}

/// Every character that [`staged_tail_ok`] accepts is portable or `%`.
pub proof fn lemma_staged_tail_chars(s: Seq<char>, i: int)
    requires
        0 <= i,
        staged_tail_ok(s, i),
    ensures
        forall|j: int| i <= j < s.len() ==> is_portable_char(#[trigger] s[j]) || s[j] == '%',
    decreases s.len() - i,
{
    if i < s.len() {
        if is_portable_char(s[i]) {
            lemma_staged_tail_chars(s, i + 1);
        } else {
            lemma_staged_tail_chars(s, i + 3);
        }
    }
}

/// Decides [`is_upper_hex`].
fn upper_hex_char(c: char) -> (result: bool)
    ensures
        result == is_upper_hex(c),
{
    ('0' <= c && c <= '9') || ('A' <= c && c <= 'F')
}

/// Computes [`upper_hex_value`] of an uppercase hexadecimal digit.
fn upper_hex_digit_value(c: char) -> (value: u32)
    requires
        is_upper_hex(c),
    ensures
        value as int == upper_hex_value(c),
        value < 16,
{
    if c <= '9' {
        (c as u32) - 48
    } else {
        (c as u32) - 55
    }
}

/// Decides [`staged_tail_ok`] from the start.
fn staged_chars_ok(chars: &[char]) -> (result: bool)
    ensures
        result == staged_tail_ok(chars@, 0),
{
    let mut index: usize = 0;
    while index < chars.len()
        invariant
            0 <= index <= chars@.len(),
            staged_tail_ok(chars@, 0) == staged_tail_ok(chars@, index as int),
        decreases chars@.len() - index,
    {
        let c = chars[index];
        if portable_char(c) {
            index = index + 1;
        } else {
            if c != '%' || chars.len() - index <= 2 || !upper_hex_char(chars[index + 1])
                || !upper_hex_char(chars[index + 2]) {
                return false;
            }
            let decoded: u32 = upper_hex_digit_value(chars[index + 1]) * 16 + upper_hex_digit_value(
                chars[index + 2],
            );
            if (97 <= decoded && decoded <= 122) || (65 <= decoded && decoded <= 90) || (48
                <= decoded && decoded <= 57) || decoded == 46 || decoded == 95 || decoded == 45
                || decoded == 47 || decoded == 92 || decoded < 32 || decoded == 127 {
                return false;
            }
            index = index + 3;
        }
    }
    true
}

/// Whether `value` is a safe staged media file name (see [`staged_name_spec`]).
pub fn valid_staged_media_file_name(value: &str) -> (result: bool)
    ensures
        result == staged_name_spec(value@),
{
    proof {
        reveal_strlit("source-");
    }
    let chars = chars_of(value);
    let prefix = chars_of("source-");
    if !chars_start_with(&chars, &prefix) || chars.len() > 200 {
        return false;
    }
    staged_chars_ok(&chars)
}

/// 64 lowercase hexadecimal digits.
pub open spec fn sha256_hex_spec(s: Seq<char>) -> bool {
    s.len() == 64 && forall|i: int| 0 <= i < 64 ==> is_lower_hex(#[trigger] s[i])
}

/// A content hash `sha256:` followed by 64 lowercase hexadecimal digits.
pub open spec fn content_hash_spec(s: Seq<char>) -> bool {
    has_prefix(s, "sha256:"@) && sha256_hex_spec(s.skip(7))
}

/// The hexadecimal digits of a content hash, when it is canonical.
fn sha256_digits(content_hash: &str) -> (digits: Option<Vec<char>>)
    ensures
        digits is Some <==> content_hash_spec(content_hash@),
        digits matches Some(d) ==> d@ == content_hash@.skip(7),
{
    proof {
        reveal_strlit("sha256:");
    }
    let chars = chars_of(content_hash);
    let prefix = chars_of("sha256:");
    if !chars_start_with(&chars, &prefix) {
        return None;
    }
    let digits = chars_from(&chars, 7);
    if digits.len() != 64 || !lower_hex_from(&digits, 0) {
        return None;
    }
    Some(digits)
}

/// Whether `content_hash` starts with `sha256:`.
fn has_sha256_prefix(content_hash: &str) -> (result: bool)
    ensures
        result == has_prefix(content_hash@, "sha256:"@),
{
    let chars = chars_of(content_hash);
    let prefix = chars_of("sha256:");
    chars_start_with(&chars, &prefix)
}

/// Checks a staged media source hash and gives back its 64 hexadecimal digits.
pub fn validate_sha256(content_hash: &str, operation: StorageOperation) -> (result: Result<
    String,
    StorageServiceError,
>)
    ensures
        result is Ok <==> content_hash_spec(content_hash@),
        result matches Ok(hex) ==> hex@ == content_hash@.skip(7),
        result matches Err(error) ==> {
            &&& error.code == StorageErrorCode::InvalidRequest
            &&& error.operation == operation
            &&& error.path is None
            &&& error.artifact_id is None
            &&& error.message@ == if has_prefix(content_hash@, "sha256:"@) {
                "媒体源 SHA-256 必须是 64 位小写十六进制。"@
            } else {
                "媒体源 SHA-256 必须使用 sha256:<hex> 格式。"@
            }
        },
{
    if !has_sha256_prefix(content_hash) {
        return Err(
            StorageServiceError::new(
                StorageErrorCode::InvalidRequest,
                operation,
                "媒体源 SHA-256 必须使用 sha256:<hex> 格式。",
            ),
        );
    }
    match sha256_digits(content_hash) {
        Some(digits) => Ok(string_from_chars(&digits)),
        None => Err(
            StorageServiceError::new(
                StorageErrorCode::InvalidRequest,
                operation,
                "媒体源 SHA-256 必须是 64 位小写十六进制。",
            ),
        ),
    }
}

/// The content-addressed location of an artifact object for a hash with
/// digits `hex`.
pub open spec fn content_uri_spec(hex: Seq<char>) -> Seq<char> {
    "artifacts/objects/sha256/"@ + hex.take(2) + "/"@ + hex
}

/// The project-relative location of the stored content with `content_hash`.
pub fn content_uri_for_hash(content_hash: &str, operation: StorageOperation) -> (result: Result<
    String,
    StorageServiceError,
>)
    ensures
        result is Ok <==> content_hash_spec(content_hash@),
        result matches Ok(uri) ==> uri@ == content_uri_spec(content_hash@.skip(7)),
        result matches Err(error) ==> {
            &&& error.code == StorageErrorCode::InvalidArtifact
            &&& error.operation == operation
            &&& error.path is None
            &&& error.artifact_id is None
            &&& error.message@ == if has_prefix(content_hash@, "sha256:"@) {
                "Artifact SHA-256 必须是 64 位小写十六进制。"@
            } else {
                "Artifact contentHash 必须使用 sha256:<hex> 格式。"@
            }
        },
{
    if !has_sha256_prefix(content_hash) {
        return Err(
            StorageServiceError::new(
                StorageErrorCode::InvalidArtifact,
                operation,
                "Artifact contentHash 必须使用 sha256:<hex> 格式。",
            ),
        );
    }
    match sha256_digits(content_hash) {
        Some(digits) => {
            let mut uri = String::from_str("artifacts/objects/sha256/");
            push_char(&mut uri, digits[0]);
            push_char(&mut uri, digits[1]);
            push_char(&mut uri, '/');
            let hex = string_from_chars(&digits);
            uri.append(hex.as_str());
            proof {
                reveal_strlit("/");
            }
            assert(digits@.take(2) =~= seq![digits@[0], digits@[1]]);
            assert(uri@ =~= content_uri_spec(content_hash@.skip(7)));
            Ok(uri)
        },
        None => Err(
            StorageServiceError::new(
                StorageErrorCode::InvalidArtifact,
                operation,
                "Artifact SHA-256 必须是 64 位小写十六进制。",
            ),
        ),
    }
}

/// Where a staged media source with hash digits `hex` and staged name `name`
/// lives, relative to the project.
pub open spec fn staged_uri_spec(hex: Seq<char>, name: Seq<char>) -> Seq<char> {
    "requests/media-sources/sha256/"@ + hex.take(2) + "/"@ + hex + "/"@ + name
}

/// The fixed shape of a staged source URI: six pieces, the first three fixed
/// and the fourth two bytes long.
pub open spec fn staged_uri_layout(parts: Seq<Seq<char>>) -> bool {
    &&& parts.len() == 6
    &&& parts[0] == "requests"@
    &&& parts[1] == "media-sources"@
    &&& parts[2] == "sha256"@
    &&& utf8_length(parts[3]) == 2
}

/// The hash digits and staged file name that a staged source URI names, when
/// it follows the canonical layout.
pub open spec fn parsed_staged_uri(uri: Seq<char>) -> Option<(Seq<char>, Seq<char>)> {
    let parts = split_spec(uri, '/');
    if staged_uri_layout(parts) && sha256_hex_spec(parts[4]) && parts[3] == parts[4].take(2)
        && staged_name_spec(parts[5]) {
        Some((parts[4], parts[5]))
    } else {
        None
    }
}

/// The staged location of a media source with `content_hash` and the staged
/// file name `source_file_name`.
pub fn media_source_uri(
    content_hash: &str,
    source_file_name: &str,
    operation: StorageOperation,
) -> (result: Result<String, StorageServiceError>)
    ensures
        result is Ok <==> content_hash_spec(content_hash@) && staged_name_spec(source_file_name@),
        result matches Ok(uri) ==> uri@ == staged_uri_spec(
            content_hash@.skip(7),
            source_file_name@,
        ),
        result matches Err(error) ==> {
            &&& error.operation == operation
            &&& error.path is None
            &&& error.artifact_id is None
            &&& if !content_hash_spec(content_hash@) {
                &&& error.code == StorageErrorCode::InvalidRequest
                &&& error.message@ == if has_prefix(content_hash@, "sha256:"@) {
                    "媒体源 SHA-256 必须是 64 位小写十六进制。"@
                } else {
                    "媒体源 SHA-256 必须使用 sha256:<hex> 格式。"@
                }
            } else {
                &&& error.code == StorageErrorCode::InvalidPath
                &&& error.message@ == "媒体源 staging 文件名不安全。"@
            }
        },
{
    let hex = match validate_sha256(content_hash, operation) {
        Ok(hex) => hex,
        Err(error) => return Err(error),
    };
    if !valid_staged_media_file_name(source_file_name) {
        return Err(
            StorageServiceError::new(
                StorageErrorCode::InvalidPath,
                operation,
                "媒体源 staging 文件名不安全。",
            ),
        );
    }
    proof {
        reveal_strlit("/");
    }
    let digits = chars_of(hex.as_str());
    let mut uri = String::from_str("requests/media-sources/sha256/");
    push_char(&mut uri, digits[0]);
    push_char(&mut uri, digits[1]);
    push_char(&mut uri, '/');
    uri.append(hex.as_str());
    push_char(&mut uri, '/');
    uri.append(source_file_name);
    assert(digits@.take(2) =~= seq![digits@[0], digits@[1]]);
    assert(uri@ =~= staged_uri_spec(content_hash@.skip(7), source_file_name@));
    Ok(uri)
}

/// Reads the hash digits and the staged file name back from a staged source
/// URI, accepting only the canonical layout.
pub fn parse_media_source_uri(uri: &str, operation: StorageOperation) -> (result: Result<
    (String, String),
    StorageServiceError,
>)
    ensures
        result is Ok <==> parsed_staged_uri(uri@) is Some,
        result matches Ok((hex, name)) ==> parsed_staged_uri(uri@) == Some((hex@, name@)),
        result matches Err(error) ==> {
            let parts = split_spec(uri@, '/');
            &&& error.operation == operation
            &&& error.path is None
            &&& error.artifact_id is None
            &&& if !staged_uri_layout(parts) {
                &&& error.code == StorageErrorCode::InvalidPath
                &&& error.message@ == "staged 媒体源 URI 不符合版本化 content-addressed 布局。"@
            } else if !sha256_hex_spec(parts[4]) {
                &&& error.code == StorageErrorCode::InvalidRequest
                &&& error.message@ == "媒体源 SHA-256 必须是 64 位小写十六进制。"@
            } else {
                &&& error.code == StorageErrorCode::InvalidPath
                &&& error.message@ == "staged 媒体源 URI 的哈希前缀或安全文件名无效。"@
            }
        },
{
    proof {
        reveal_strlit("sha256:");
    }
    let chars = chars_of(uri);
    let parts = split_chars(&chars, '/');
    let ghost spec_parts = split_spec(uri@, '/');
    assert(parts@.len() == spec_parts.len());
    let layout_ok = parts.len() == 6 && {
        assert(forall|k: int| 0 <= k < 6 ==> #[trigger] parts@[k]@ == spec_parts[k]);
        let requests = chars_of("requests");
        let media_sources = chars_of("media-sources");
        let sha256 = chars_of("sha256");
        chars_equal(&parts[0], &requests) && chars_equal(&parts[1], &media_sources)
            && chars_equal(&parts[2], &sha256) && utf8_length_is_two(&parts[3])
    };
    if !layout_ok {
        return Err(
            StorageServiceError::new(
                StorageErrorCode::InvalidPath,
                operation,
                "staged 媒体源 URI 不符合版本化 content-addressed 布局。",
            ),
        );
    }
    assert(forall|k: int| 0 <= k < 6 ==> #[trigger] parts@[k]@ == spec_parts[k]);
    let hash_text = string_from_chars(&parts[4]);
    let mut content_hash = String::from_str("sha256:");
    content_hash.append(hash_text.as_str());
    assert(content_hash@.skip(7) =~= spec_parts[4]);
    assert(content_hash@.take(7) =~= "sha256:"@);
    assert(has_prefix(content_hash@, "sha256:"@));
    let hex = match validate_sha256(content_hash.as_str(), operation) {
        Ok(hex) => hex,
        Err(error) => return Err(error),
    };
    let digits = &parts[4];
    let prefix = vec![digits[0], digits[1]];
    assert(prefix@ =~= spec_parts[4].take(2));
    if !chars_equal(&parts[3], &prefix) || !valid_staged_media_file_name(
        string_from_chars(&parts[5]).as_str(),
    ) {
        return Err(
            StorageServiceError::new(
                StorageErrorCode::InvalidPath,
                operation,
                "staged 媒体源 URI 的哈希前缀或安全文件名无效。",
            ),
        );
    }
    Ok((hex, string_from_chars(&parts[5])))
}

/// A staged source URI reads back as the hash digits and file name it was
/// made from.
pub proof fn lemma_staged_uri_round_trip(hex: Seq<char>, name: Seq<char>)
    requires
        sha256_hex_spec(hex),
        staged_name_spec(name),
    ensures
        parsed_staged_uri(staged_uri_spec(hex, name)) == Some((hex, name)),
{
    reveal_strlit("requests/media-sources/sha256/");
    reveal_strlit("/");
    reveal_strlit("requests");
    reveal_strlit("media-sources");
    reveal_strlit("sha256");
    reveal_strlit("source-");
    let a = "requests"@;
    let b = "media-sources"@;
    let c = "sha256"@;
    let d = hex.take(2);
    let uri = staged_uri_spec(hex, name);
    assert(uri =~= ((((a.push('/') + b).push('/') + c).push('/') + d).push('/') + hex).push('/')
        + name);
    lemma_staged_tail_chars(name, 0);
    assert(forall|i: int| 0 <= i < name.len() ==> name[i] != '/') by {
        assert forall|i: int| 0 <= i < name.len() implies name[i] != '/' by {
            assert(is_portable_char(name[i]) || name[i] == '%');
        }
    }
    assert(forall|i: int| 0 <= i < hex.len() ==> hex[i] != '/') by {
        assert forall|i: int| 0 <= i < hex.len() implies hex[i] != '/' by {
            assert(is_lower_hex(hex[i]));
        }
    }
    assert(forall|i: int| 0 <= i < d.len() ==> d[i] != '/') by {
        assert forall|i: int| 0 <= i < d.len() implies d[i] != '/' by {
            assert(d[i] == hex[i]);
            assert(is_lower_hex(hex[i]));
        }
    }
    lemma_split_single(a, '/');
    lemma_split_join(a, b, '/');
    lemma_split_join(a.push('/') + b, c, '/');
    lemma_split_join((a.push('/') + b).push('/') + c, d, '/');
    lemma_split_join(((a.push('/') + b).push('/') + c).push('/') + d, hex, '/');
    lemma_split_join((((a.push('/') + b).push('/') + c).push('/') + d).push('/') + hex, name, '/');
    let parts = split_spec(uri, '/');
    assert(parts =~= seq![a, b, c, d, hex, name]);
    assert(is_lower_hex(hex[0]) && is_lower_hex(hex[1]));
    reveal_with_fuel(utf8_length, 3);
    assert(d.drop_last().drop_last() =~= Seq::<char>::empty());
    assert(utf8_length(d) == 2);
}


/// The position of the last `.` in `name`, or -1 when there is none.
pub open spec fn last_dot(name: Seq<char>) -> int
    decreases name.len(),
{
    if name.len() == 0 {
        -1
    } else if name.last() == '.' {
        name.len() - 1
    } else {
        last_dot(name.drop_last())
    }
}

/// The last dot lies inside the name, or there is none.
proof fn lemma_last_dot_bounds(name: Seq<char>)
    ensures
        -1 <= last_dot(name) < name.len(),
        last_dot(name) >= 0 ==> name[last_dot(name)] == '.',
    decreases name.len(),
{
    if name.len() > 0 && name.last() != '.' {
        lemma_last_dot_bounds(name.drop_last());
    }
}

/// A file name splits into a stem and an extension at its last dot, unless
/// it is `..`, has no dot, or its only dot leads it (as `Path::file_stem` and
/// `Path::extension` split names).
pub open spec fn splits_at_dot(name: Seq<char>) -> bool {
    name != ".."@ && last_dot(name) > 0
}

/// The stem of a file name.
pub open spec fn file_stem_spec(name: Seq<char>) -> Seq<char> {
    if splits_at_dot(name) {
        name.take(last_dot(name))
    } else {
        name
    }
}

/// The extension of a file name, if it has one.
pub open spec fn extension_spec(name: Seq<char>) -> Option<Seq<char>> {
    if splits_at_dot(name) {
        Some(name.skip(last_dot(name) + 1))
    } else {
        None
    }
}

/// The encoded name of a staged media source whose original file name is
/// `name`, or why there is none: `source-` and the percent-encoded name when
/// that fits 200 characters; otherwise `source-`, the encoded stem cut to
/// what fits, `-` and the first 16 hexadecimal digits of the name's SHA-256,
/// and `.` with the encoded extension when there is one (of at most 32
/// characters).
pub open spec fn staged_source_name(name: Seq<char>) -> Result<Seq<char>, Seq<char>> {
    let full = "source-"@ + percent_encode_within(encode_utf8(name), usize::MAX as int);
    let extension = match extension_spec(name) {
        Some(e) => percent_encode_within(encode_utf8(e), usize::MAX as int),
        None => Seq::empty(),
    };
    let suffix = "-"@ + hex_lower(sha256_spec(encode_utf8(name))).take(16);
    let extension_suffix = if extension.len() == 0 {
        Seq::empty()
    } else {
        "."@ + extension
    };
    let budget = 200 - (7 + suffix.len() + extension_suffix.len());
    let stem = percent_encode_within(encode_utf8(file_stem_spec(name)), budget);
    if name.len() == 0 {
        Err("媒体源必须包含有效的 Unicode 文件名。"@)
    } else if full.len() <= 200 {
        Ok(full)
    } else if extension.len() > 32 {
        Err("媒体源扩展名编码后超过安全上限。"@)
    } else if stem.len() == 0 {
        Err("媒体源文件名编码后为空。"@)
    } else {
        Ok("source-"@ + stem + suffix + extension_suffix)
    }
}

/// Finds [`last_dot`].
fn find_last_dot(chars: &[char]) -> (position: Option<usize>)
    ensures
        match position {
            Some(p) => p as int == last_dot(chars@),
            None => last_dot(chars@) == -1,
        },
{
    let mut n: usize = chars.len();
    assert(chars@.take(n as int) =~= chars@);
    while n > 0
        invariant
            n <= chars@.len(),
            last_dot(chars@) == last_dot(chars@.take(n as int)),
        decreases n,
    {
        if chars[n - 1] == '.' {
            return Some(n - 1);
        }
        assert(chars@.take(n as int).drop_last() =~= chars@.take(n - 1));
        n = n - 1;
    }
    None
}

/// The name under which a media source is staged, from its original file
/// name (`None` when the source path has no Unicode file name).
pub fn safe_media_source_file_name(file_name: Option<&str>, operation: StorageOperation) -> (result:
    Result<String, StorageServiceError>)
    ensures
        match file_name {
            None => result matches Err(error) && error.message@
                == "媒体源必须包含有效的 Unicode 文件名。"@,
            Some(name) => match staged_source_name(name@) {
                Ok(staged) => result matches Ok(text) && text@ == staged,
                Err(message) => result matches Err(error) && error.message@ == message,
            },
        },
        result matches Err(error) ==> error.code == StorageErrorCode::InvalidPath
            && error.operation == operation && error.path is None && error.artifact_id is None,
{
    let name = match file_name {
        Some(name) => name,
        None => {
            return Err(
                StorageServiceError::new(
                    StorageErrorCode::InvalidPath,
                    operation,
                    "媒体源必须包含有效的 Unicode 文件名。",
                ),
            );
        },
    };
    let chars = chars_of(name);
    if chars.len() == 0 {
        return Err(
            StorageServiceError::new(
                StorageErrorCode::InvalidPath,
                operation,
                "媒体源必须包含有效的 Unicode 文件名。",
            ),
        );
    }
    proof {
        reveal_strlit("source-");
        reveal_strlit("-");
        reveal_strlit(".");
        reveal_strlit("..");
    }
    let encoded = percent_encode_file_name(name.as_bytes());
    let mut full = String::from_str("source-");
    full.append(encoded.as_str());
    if chars_of(encoded.as_str()).len() <= 193 {
        return Ok(full);
    }
    let dot = find_last_dot(chars.as_slice());
    proof {
        lemma_last_dot_bounds(chars@);
    }
    let dotdot = chars.len() == 2 && chars[0] == '.' && chars[1] == '.';
    proof {
        if chars@.len() == 2 {
            assert(dotdot == (chars@ =~= ".."@));
        }
    }
    let split = match dot {
        Some(p) => p > 0 && !dotdot,
        None => false,
    };
    let extension = if split {
        let p = dot.unwrap();
        let mut tail: Vec<char> = Vec::new();
        let mut k: usize = p + 1;
        while k < chars.len()
            invariant
                p < chars@.len(),
                p + 1 <= k <= chars@.len(),
                tail@ == chars@.subrange(p + 1, k as int),
            decreases chars@.len() - k,
        {
            tail.push(chars[k]);
            assert(tail@ =~= chars@.subrange(p + 1, k + 1));
            k = k + 1;
        }
        assert(tail@ =~= chars@.skip(p + 1));
        let text = string_from_chars(tail.as_slice());
        percent_encode_file_name(text.as_str().as_bytes())
    } else {
        String::new()
    };
    let extension_length = chars_of(extension.as_str()).len();
    if extension_length > 32 {
        return Err(
            StorageServiceError::new(
                StorageErrorCode::InvalidPath,
                operation,
                "媒体源扩展名编码后超过安全上限。",
            ),
        );
    }
    let digest = sha256_digest(name.as_bytes());
    let hex = hex_prefix(&digest, 16);
    let mut suffix = String::from_str("-");
    suffix.append(hex.as_str());
    let mut extension_suffix = String::new();
    if extension_length > 0 {
        extension_suffix.append(".");
        extension_suffix.append(extension.as_str());
    }
    let stem_chars: Vec<char> = if split {
        let p = dot.unwrap();
        let mut head: Vec<char> = Vec::new();
        let mut k: usize = 0;
        while k < p
            invariant
                p < chars@.len(),
                0 <= k <= p,
                head@ == chars@.take(k as int),
            decreases p - k,
        {
            head.push(chars[k]);
            assert(head@ =~= chars@.take(k + 1));
            k = k + 1;
        }
        head
    } else {
        chars.clone()
    };
    let stem_text = string_from_chars(stem_chars.as_slice());
    let extension_suffix_length = chars_of(extension_suffix.as_str()).len();
    let budget: usize = 200 - (7 + 17 + extension_suffix_length);
    let encoded_stem = percent_encode_file_name_bounded(stem_text.as_str().as_bytes(), budget);
    if chars_of(encoded_stem.as_str()).len() == 0 {
        return Err(
            StorageServiceError::new(
                StorageErrorCode::InvalidPath,
                operation,
                "媒体源文件名编码后为空。",
            ),
        );
    }
    let mut staged = String::from_str("source-");
    staged.append(encoded_stem.as_str());
    staged.append(suffix.as_str());
    staged.append(extension_suffix.as_str());
    proof {
        let n = name@;
        assert(chars@ == n);
        assert(split == splits_at_dot(n));
        assert(stem_chars@ == file_stem_spec(n));
        let ext = match extension_spec(n) {
            Some(e) => percent_encode_within(encode_utf8(e), usize::MAX as int),
            None => Seq::empty(),
        };
        assert(extension@ == ext);
        assert(suffix@ == "-"@ + hex_lower(sha256_spec(encode_utf8(n))).take(16));
        crate::hex::lemma_hex_lower_digits(digest@);
        assert(suffix@.len() == 17);
        assert(extension_suffix@ == if ext.len() == 0 { Seq::<char>::empty() } else { "."@ + ext });
        assert(staged_source_name(n) == Ok::<Seq<char>, Seq<char>>(staged@));
    }
    Ok(staged)
}

} // verus!
