use vstd::prelude::*;

use crate::identifiers::has_prefix;
use crate::staged_source::{
    content_hash_spec, parse_media_source_uri, parsed_staged_uri, sha256_hex_spec, staged_uri_layout,
    validate_sha256,
};
use crate::storage_error::{StorageErrorCode, StorageOperation, StorageServiceError};
use crate::storage_rules::{decimal, validate_media_source_limit};
use crate::storage_types::{ResolveStagedMediaSourceOptions, StageMediaSourceFileOptions};
use crate::uri::split_spec;

verus! {

/// The error of a media source request refused with `code` and `message`:
/// it names no path and no artifact.
pub open spec fn media_source_error(error: StorageServiceError, code: StorageErrorCode, message: Seq<char>) -> bool {
    &&& error.code == code
    &&& error.operation == StorageOperation::ManageMediaSource
    &&& error.message@ == message
    &&& error.path is None
    &&& error.artifact_id is None
}

/// Why a caller's size limit is refused: it must lie in 1 to the service's
/// own limit.
pub open spec fn limit_refusal(max_bytes: u64, service_max_bytes: u64) -> Option<(StorageErrorCode, Seq<char>)> {
    if !(0 < max_bytes <= service_max_bytes) {
        Some(
            (
                StorageErrorCode::InvalidRequest,
                "媒体源同步上限必须位于 1..="@ + decimal(service_max_bytes as nat) + " 字节。"@,
            ),
        )
    } else {
        None
    }
}

/// Why a content hash is refused: it must be `sha256:` and 64 lowercase
/// hexadecimal digits.
pub open spec fn hash_refusal(content_hash: Seq<char>) -> Option<(StorageErrorCode, Seq<char>)> {
    if content_hash_spec(content_hash) {
        None
    } else if has_prefix(content_hash, "sha256:"@) {
        Some((StorageErrorCode::InvalidRequest, "媒体源 SHA-256 必须是 64 位小写十六进制。"@))
    } else {
        Some((StorageErrorCode::InvalidRequest, "媒体源 SHA-256 必须使用 sha256:<hex> 格式。"@))
    }
}

/// Why a staged source URI is refused, when it does not follow the canonical
/// layout.
pub open spec fn uri_refusal(uri: Seq<char>) -> (StorageErrorCode, Seq<char>) {
    let parts = split_spec(uri, '/');
    if !staged_uri_layout(parts) {
        (StorageErrorCode::InvalidPath, "staged 媒体源 URI 不符合版本化 content-addressed 布局。"@)
    } else if !sha256_hex_spec(parts[4]) {
        (StorageErrorCode::InvalidRequest, "媒体源 SHA-256 必须是 64 位小写十六进制。"@)
    } else {
        (StorageErrorCode::InvalidPath, "staged 媒体源 URI 的哈希前缀或安全文件名无效。"@)
    }
}

/// Why a request to stage a media source is refused before the source is
/// read: its size limit, then the hash the caller confirmed, if any.
pub open spec fn stage_request_refusal(options: StageMediaSourceFileOptions, service_max_bytes: u64) -> Option<
    (StorageErrorCode, Seq<char>),
> {
    match limit_refusal(options.max_bytes, service_max_bytes) {
        Some(refusal) => Some(refusal),
        None => match options.expected_content_hash {
            Some(hash) => hash_refusal(hash@),
            None => None,
        },
    }
}

/// Why a request to resolve a staged media source is refused before the
/// project is opened: its size limit, its hash, its declared length against
/// the limit, the URI's layout, then the URI's hash against the confirmed one.
pub open spec fn resolve_request_refusal(options: ResolveStagedMediaSourceOptions, service_max_bytes: u64) -> Option<
    (StorageErrorCode, Seq<char>),
> {
    match limit_refusal(options.max_bytes, service_max_bytes) {
        Some(refusal) => Some(refusal),
        None => match hash_refusal(options.expected_content_hash@) {
            Some(refusal) => Some(refusal),
            None => if options.expected_byte_length > options.max_bytes {
                Some((StorageErrorCode::SourceTooLarge, "媒体源声明长度超过 resolver 上限。"@))
            } else {
                match parsed_staged_uri(options.staged_source_uri@) {
                    None => Some(uri_refusal(options.staged_source_uri@)),
                    Some((hex, _)) => if hex != options.expected_content_hash@.skip(7) {
                        Some((StorageErrorCode::ContentCorrupt, "媒体源 URI 与确认的 SHA-256 不一致。"@))
                    } else {
                        None
                    },
                }
            },
        },
    }
}

/// Checks a request to stage a media source before its file is touched (see
/// [`stage_request_refusal`]).
pub fn validate_stage_request(options: &StageMediaSourceFileOptions, service_max_bytes: u64) -> (result: Result<
    (),
    StorageServiceError,
>)
    ensures
        match stage_request_refusal(*options, service_max_bytes) {
            Some((code, message)) => result matches Err(error) && media_source_error(error, code, message),
            None => result is Ok,
        },
{
    let operation = StorageOperation::ManageMediaSource;
    validate_media_source_limit(options.max_bytes, service_max_bytes, operation)?;
    match &options.expected_content_hash {
        Some(hash) => {
            validate_sha256(hash.as_str(), operation)?;
        },
        None => {},
    }
    Ok(())
}

/// Checks a request to resolve a staged media source before the project is
/// opened (see [`resolve_request_refusal`]); gives the staged file name the
/// URI names.
pub fn validate_resolve_staged_request(options: &ResolveStagedMediaSourceOptions, service_max_bytes: u64) -> (result:
    Result<String, StorageServiceError>)
    ensures
        match resolve_request_refusal(*options, service_max_bytes) {
            Some((code, message)) => result matches Err(error) && media_source_error(error, code, message),
            None => result matches Ok(name) && parsed_staged_uri(options.staged_source_uri@) == Some(
                (options.expected_content_hash@.skip(7), name@),
            ),
        },
{
    let operation = StorageOperation::ManageMediaSource;
    validate_media_source_limit(options.max_bytes, service_max_bytes, operation)?;
    let expected_hex = validate_sha256(options.expected_content_hash.as_str(), operation)?;
    if options.expected_byte_length > options.max_bytes {
        return Err(
            StorageServiceError::new(
                StorageErrorCode::SourceTooLarge,
                operation,
                "媒体源声明长度超过 resolver 上限。",
            ),
        );
    }
    let (uri_hex, source_file_name) = parse_media_source_uri(options.staged_source_uri.as_str(), operation)?;
    if !crate::text::same_text(uri_hex.as_str(), expected_hex.as_str()) {
        return Err(
            StorageServiceError::new(
                StorageErrorCode::ContentCorrupt,
                operation,
                "媒体源 URI 与确认的 SHA-256 不一致。",
            ),
        );
    }
    Ok(source_file_name)
}

} // verus!
