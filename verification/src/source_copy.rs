use vstd::prelude::*;

use crate::storage_error::{opt_view, StorageErrorCode, StorageOperation, StorageServiceError};
use crate::storage_rules::{decimal, push_decimal};

verus! {

/// The error for a source file too large to import, with its message.
pub open spec fn source_too_large(
    error: StorageServiceError,
    operation: StorageOperation,
    message: Seq<char>,
    source_path: Seq<char>,
) -> bool {
    &&& error.code == StorageErrorCode::SourceTooLarge
    &&& error.operation == operation
    &&& error.message@ == message
    &&& opt_view(error.path) == Some(source_path)
    &&& error.artifact_id is None
}

/// Counts `read` more bytes copied from a source file that already gave
/// `total`: the count must not overflow and must stay within `max_bytes`.
pub fn count_copied_bytes(
    total: u64,
    read: u64,
    max_bytes: u64,
    operation: StorageOperation,
    source_path: &str,
) -> (result: Result<u64, StorageServiceError>)
    ensures
        total + read > u64::MAX ==> (result matches Err(error) && source_too_large(
            error,
            operation,
            "待导入文件长度溢出。"@,
            source_path@,
        )),
        total + read <= u64::MAX && total + read > max_bytes ==> (result matches Err(error)
            && source_too_large(
            error,
            operation,
            "同步导入上限为 "@ + decimal(max_bytes as nat) + " 字节。"@,
            source_path@,
        )),
        total + read <= max_bytes ==> result == Ok::<u64, StorageServiceError>((total + read) as u64),
{
    let sum = match total.checked_add(read) {
        Some(sum) => sum,
        None => {
            return Err(
                StorageServiceError::new(
                    StorageErrorCode::SourceTooLarge,
                    operation,
                    "待导入文件长度溢出。",
                ).at_path(source_path),
            );
        },
    };
    if sum > max_bytes {
        let mut message = String::from_str("同步导入上限为 ");
        push_decimal(&mut message, max_bytes);
        message.append(" 字节。");
        return Err(
            StorageServiceError {
                code: StorageErrorCode::SourceTooLarge,
                operation,
                message,
                path: Some(source_path.to_owned()),
                artifact_id: None,
            },
        );
    }
    Ok(sum)
}

/// After a source file was copied, checks that it is still the file that was
/// inspected: no link, a regular file, of the inspected length and
/// modification time (`same_modified`), and that exactly that many bytes were
/// copied.
pub fn check_source_unchanged(
    is_link: bool,
    is_file: bool,
    length: u64,
    same_modified: bool,
    copied: u64,
    inspected_length: u64,
    operation: StorageOperation,
    source_path: &str,
) -> (result: Result<(), StorageServiceError>)
    ensures
        result is Ok <==> !is_link && is_file && length == inspected_length && same_modified
            && copied == inspected_length,
        result matches Err(error) ==> {
            &&& error.code == StorageErrorCode::SourceChanged
            &&& error.operation == operation
            &&& error.message@ == "待导入文件在读取过程中发生变化，请重试。"@
            &&& opt_view(error.path) == Some(source_path@)
            &&& error.artifact_id is None
        },
{
    if is_link || !is_file || length != inspected_length || !same_modified || copied
        != inspected_length {
        return Err(
            StorageServiceError::new(
                StorageErrorCode::SourceChanged,
                operation,
                "待导入文件在读取过程中发生变化，请重试。",
            ).at_path(source_path),
        );
    }
    Ok(())
}

/// Why a source file is refused before it is copied: it is missing, a link,
/// or not a regular file.
pub open spec fn source_refusal(found: bool, is_link: bool, is_file: bool) -> Option<
    (StorageErrorCode, Seq<char>),
> {
    if !found {
        Some((StorageErrorCode::SourceNotFound, "待导入文件不存在。"@))
    } else if is_link {
        Some((StorageErrorCode::PathContainsSymlink, "待导入文件不能是符号链接或重解析点。"@))
    } else if !is_file {
        Some((StorageErrorCode::InvalidPath, "待导入路径不是普通文件。"@))
    } else {
        None
    }
}

/// Checks what the file system says of a source file before it is copied
/// (`found` is false when it reported the file missing).
pub fn check_source_metadata(
    found: bool,
    is_link: bool,
    is_file: bool,
    operation: StorageOperation,
    source_path: &str,
) -> (result: Result<(), StorageServiceError>)
    ensures
        match source_refusal(found, is_link, is_file) {
            Some((code, message)) => result matches Err(error) && {
                &&& error.code == code
                &&& error.operation == operation
                &&& error.message@ == message
                &&& opt_view(error.path) == Some(source_path@)
                &&& error.artifact_id is None
            },
            None => result is Ok,
        },
{
    if !found {
        return Err(
            StorageServiceError::new(StorageErrorCode::SourceNotFound, operation, "待导入文件不存在。")
                .at_path(source_path),
        );
    }
    if is_link {
        return Err(
            StorageServiceError::new(
                StorageErrorCode::PathContainsSymlink,
                operation,
                "待导入文件不能是符号链接或重解析点。",
            ).at_path(source_path),
        );
    }
    if !is_file {
        return Err(
            StorageServiceError::new(
                StorageErrorCode::InvalidPath,
                operation,
                "待导入路径不是普通文件。",
            ).at_path(source_path),
        );
    }
    Ok(())
}

/// Why stored artifact content is refused before it is read: it is missing,
/// not a regular file, longer than `max_bytes`, or longer than memory can
/// address.
pub open spec fn content_read_refusal(exists: bool, is_file: bool, length: u64, max_bytes: u64) -> Option<
    (StorageErrorCode, Seq<char>),
> {
    if !exists {
        Some((StorageErrorCode::ContentCorrupt, "Artifact 内容不存在。"@))
    } else if !is_file {
        Some((StorageErrorCode::ContentCorrupt, "Artifact 内容不是普通文件。"@))
    } else if length > max_bytes {
        Some(
            (
                StorageErrorCode::ArtifactTooLarge,
                "同步 Artifact 读取上限为 "@ + decimal(max_bytes as nat) + " 字节。"@,
            ),
        )
    } else if length > usize::MAX {
        Some((StorageErrorCode::ArtifactTooLarge, "Artifact 字节数超出当前平台可分配范围。"@))
    } else {
        None
    }
}

/// The error of a refused content read.
pub open spec fn content_read_error(
    error: StorageServiceError,
    refusal: (StorageErrorCode, Seq<char>),
    operation: StorageOperation,
    path: Seq<char>,
) -> bool {
    &&& error.code == refusal.0
    &&& error.operation == operation
    &&& error.message@ == refusal.1
    &&& opt_view(error.path) == Some(path)
    &&& error.artifact_id is None
}

fn read_limit_error(max_bytes: u64, operation: StorageOperation, path: &str) -> (error: StorageServiceError)
    ensures
        error.code == StorageErrorCode::ArtifactTooLarge,
        error.operation == operation,
        error.message@ == "同步 Artifact 读取上限为 "@ + decimal(max_bytes as nat) + " 字节。"@,
        opt_view(error.path) == Some(path@),
        error.artifact_id is None,
{
    let mut message = String::from_str("同步 Artifact 读取上限为 ");
    push_decimal(&mut message, max_bytes);
    message.append(" 字节。");
    StorageServiceError {
        code: StorageErrorCode::ArtifactTooLarge,
        operation,
        message,
        path: Some(path.to_owned()),
        artifact_id: None,
    }
}

/// Checks what the file system says of stored artifact content before a
/// bounded read (`exists` is false when the path names nothing).
pub fn check_content_metadata(
    exists: bool,
    is_file: bool,
    length: u64,
    max_bytes: u64,
    operation: StorageOperation,
    path: &str,
) -> (result: Result<(), StorageServiceError>)
    ensures
        match content_read_refusal(exists, is_file, length, max_bytes) {
            Some(refusal) => result matches Err(error) && content_read_error(error, refusal, operation, path@),
            None => result is Ok,
        },
{
    if !exists {
        return Err(
            StorageServiceError::new(StorageErrorCode::ContentCorrupt, operation, "Artifact 内容不存在。")
                .at_path(path),
        );
    }
    if !is_file {
        return Err(
            StorageServiceError::new(
                StorageErrorCode::ContentCorrupt,
                operation,
                "Artifact 内容不是普通文件。",
            ).at_path(path),
        );
    }
    if length > max_bytes {
        return Err(read_limit_error(max_bytes, operation, path));
    }
    if length as u128 > usize::MAX as u128 {
        return Err(
            StorageServiceError::new(
                StorageErrorCode::ArtifactTooLarge,
                operation,
                "Artifact 字节数超出当前平台可分配范围。",
            ).at_path(path),
        );
    }
    Ok(())
}

/// Counts `read` more bytes of stored content that already gave `total`: the
/// count must not overflow and must stay within `max_bytes`.
pub fn count_read_bytes(
    total: u64,
    read: u64,
    max_bytes: u64,
    operation: StorageOperation,
    path: &str,
) -> (result: Result<u64, StorageServiceError>)
    ensures
        total + read > u64::MAX ==> (result matches Err(error) && content_read_error(
            error,
            (StorageErrorCode::ContentCorrupt, "Artifact 内容长度溢出。"@),
            operation,
            path@,
        )),
        total + read <= u64::MAX && total + read > max_bytes ==> (result matches Err(error)
            && content_read_error(
            error,
            (
                StorageErrorCode::ArtifactTooLarge,
                "同步 Artifact 读取上限为 "@ + decimal(max_bytes as nat) + " 字节。"@,
            ),
            operation,
            path@,
        )),
        total + read <= max_bytes ==> result == Ok::<u64, StorageServiceError>((total + read) as u64),
{
    let sum = match total.checked_add(read) {
        Some(sum) => sum,
        None => {
            return Err(
                StorageServiceError::new(
                    StorageErrorCode::ContentCorrupt,
                    operation,
                    "Artifact 内容长度溢出。",
                ).at_path(path),
            );
        },
    };
    if sum > max_bytes {
        return Err(read_limit_error(max_bytes, operation, path));
    }
    Ok(sum)
}

/// Checks that content already stored at a content address is the content
/// that address names: the same hash and length.
pub fn check_existing_content(
    actual_hash: &str,
    actual_length: u64,
    expected_hash: &str,
    expected_length: u64,
    operation: StorageOperation,
    path: &str,
) -> (result: Result<(), StorageServiceError>)
    ensures
        result is Ok <==> actual_hash@ == expected_hash@ && actual_length == expected_length,
        result matches Err(error) ==> content_read_error(
            error,
            (
                StorageErrorCode::ContentCorrupt,
                "内容寻址路径已存在，但字节数或 SHA-256 与路径不一致。"@,
            ),
            operation,
            path@,
        ),
{
    if crate::text::same_text(actual_hash, expected_hash) && actual_length == expected_length {
        return Ok(());
    }
    Err(
        StorageServiceError::new(
            StorageErrorCode::ContentCorrupt,
            operation,
            "内容寻址路径已存在，但字节数或 SHA-256 与路径不一致。",
        ).at_path(path),
    )
}

} // verus!
