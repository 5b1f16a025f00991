use vstd::prelude::*;

use crate::identifiers::{artifact_ref_is_valid, artifact_ref_spec, receipt_id_is_valid, receipt_id_spec};
use crate::project_error::{ProjectDescriptorData, ProjectErrorCode, ProjectServiceError};
use crate::storage_error::{opt_view, StorageErrorCode, StorageOperation, StorageServiceError};
use crate::text::same_text;

verus! {

/// The storage error code that a project error code is reported as.
pub open spec fn storage_code_for_project(code: ProjectErrorCode) -> StorageErrorCode {
    match code {
        ProjectErrorCode::InvalidRequest => StorageErrorCode::InvalidRequest,
        ProjectErrorCode::PathContainsSymlink => StorageErrorCode::PathContainsSymlink,
        ProjectErrorCode::ProjectNotFound => StorageErrorCode::ProjectNotFound,
        ProjectErrorCode::MarkerMissing => StorageErrorCode::ProjectNotFound,
        ProjectErrorCode::InvalidPath => StorageErrorCode::InvalidPath,
        ProjectErrorCode::MarkerTooLarge => StorageErrorCode::InvalidProject,
        ProjectErrorCode::InvalidProject => StorageErrorCode::InvalidProject,
        ProjectErrorCode::MigrationRequired => StorageErrorCode::MigrationRequired,
        ProjectErrorCode::UnsupportedNewerVersion => StorageErrorCode::UnsupportedNewerVersion,
        ProjectErrorCode::IoError => StorageErrorCode::IoError,
        _ => StorageErrorCode::InvalidPath,
    }
}

/// Reports a failure to open a project as a storage error of `operation`,
/// keeping its message and path and an actionable code.
pub fn map_project_error(error: ProjectServiceError, operation: StorageOperation) -> (mapped:
    StorageServiceError)
    ensures
        mapped.code == storage_code_for_project(error.code),
        mapped.operation == operation,
        mapped.message == error.message,
        mapped.path == error.path,
        mapped.artifact_id is None,
{
    let code = match error.code {
        ProjectErrorCode::InvalidRequest => StorageErrorCode::InvalidRequest,
        ProjectErrorCode::PathContainsSymlink => StorageErrorCode::PathContainsSymlink,
        ProjectErrorCode::ProjectNotFound | ProjectErrorCode::MarkerMissing => {
            StorageErrorCode::ProjectNotFound
        },
        ProjectErrorCode::InvalidPath => StorageErrorCode::InvalidPath,
        ProjectErrorCode::MarkerTooLarge | ProjectErrorCode::InvalidProject => {
            StorageErrorCode::InvalidProject
        },
        ProjectErrorCode::MigrationRequired => StorageErrorCode::MigrationRequired,
        ProjectErrorCode::UnsupportedNewerVersion => StorageErrorCode::UnsupportedNewerVersion,
        ProjectErrorCode::IoError => StorageErrorCode::IoError,
        _ => StorageErrorCode::InvalidPath,
    };
    StorageServiceError {
        code,
        operation,
        message: error.message,
        path: error.path,
        artifact_id: None,
    }
}

/// Refuses to write to a project other than the one the caller confirmed.
pub fn require_project_identity(
    descriptor: &ProjectDescriptorData,
    expected_project_id: &str,
    operation: StorageOperation,
) -> (result: Result<(), StorageServiceError>)
    ensures
        result is Ok <==> descriptor.project_id@ == expected_project_id@,
        result matches Err(error) ==> {
            &&& error.code == StorageErrorCode::ProjectIdentityMismatch
            &&& error.operation == operation
            &&& error.message@ == "项目身份与调用方确认值不一致，拒绝写入。"@
            &&& opt_view(error.path) == Some(descriptor.project_path@)
            &&& error.artifact_id is None
        },
{
    if same_text(descriptor.project_id.as_str(), expected_project_id) {
        Ok(())
    } else {
        Err(
            StorageServiceError::new(
                StorageErrorCode::ProjectIdentityMismatch,
                operation,
                "项目身份与调用方确认值不一致，拒绝写入。",
            ).at_path(descriptor.project_path.as_str()),
        )
    }
}

/// The same error without the path, so that a media source's location is
/// not revealed.
pub fn redact_media_source_error(error: StorageServiceError) -> (redacted: StorageServiceError)
    ensures
        redacted.code == error.code,
        redacted.operation == error.operation,
        redacted.message == error.message,
        redacted.path is None,
        redacted.artifact_id == error.artifact_id,
{
    let mut redacted = error;
    redacted.path = None;
    redacted
}

/// The decimal digits of `n`, most significant first.
pub open spec fn decimal(n: nat) -> Seq<char>
    decreases n,
{
    if n < 10 {
        seq![(48 + n) as char]
    } else {
        decimal(n / 10).push((48 + n % 10) as char)
    }
}

/// Appends the decimal digits of `n` to `text`.
pub fn push_decimal(text: &mut String, n: u64)
    ensures
        final(text)@ == old(text)@ + decimal(n as nat),
    decreases n,
{
    if n >= 10 {
        push_decimal(text, n / 10);
    }
    let digit = (n % 10) as u8;
    crate::text::push_char(text, (48u8 + digit) as char);
    proof {
        if n >= 10 {
            assert(old(text)@ + decimal((n / 10) as nat) + seq![(48 + n % 10) as char] =~= old(text)@
                + decimal(n as nat));
        } else {
            assert(old(text)@ + seq![(48 + n) as char] =~= old(text)@ + decimal(n as nat));
        }
    }
}

/// Checks a caller's media source size limit against the service's own.
pub fn validate_media_source_limit(
    max_bytes: u64,
    service_max_bytes: u64,
    operation: StorageOperation,
) -> (result: Result<(), StorageServiceError>)
    ensures
        result is Ok <==> 0 < max_bytes <= service_max_bytes,
        result matches Err(error) ==> {
            &&& error.code == StorageErrorCode::InvalidRequest
            &&& error.operation == operation
            &&& error.message@ == "媒体源同步上限必须位于 1..="@ + decimal(service_max_bytes as nat)
                + " 字节。"@
            &&& error.path is None
            &&& error.artifact_id is None
        },
{
    if max_bytes == 0 || max_bytes > service_max_bytes {
        let mut message = String::from_str("媒体源同步上限必须位于 1..=");
        push_decimal(&mut message, service_max_bytes);
        message.append(" 字节。");
        Err(
            StorageServiceError {
                code: StorageErrorCode::InvalidRequest,
                operation,
                message,
                path: None,
                artifact_id: None,
            },
        )
    } else {
        Ok(())
    }
}

/// An invalid-artifact error of `operation`.
pub fn invalid_artifact(operation: StorageOperation, message: &str) -> (error: StorageServiceError)
    ensures
        error.code == StorageErrorCode::InvalidArtifact,
        error.operation == operation,
        error.message@ == message@,
        error.path is None,
        error.artifact_id is None,
{
    StorageServiceError::new(StorageErrorCode::InvalidArtifact, operation, message)
}

/// Whether `artifact_id` is `artifact_` followed by a portable identifier,
/// at most 160 bytes in all.
pub fn artifact_id_is_valid(artifact_id: &str) -> (result: bool)
    ensures
        result == artifact_ref_spec(artifact_id@),
{
    artifact_ref_is_valid(artifact_id)
}

/// Checks an artifact identifier from a request.
pub fn validate_artifact_id(artifact_id: &str, operation: StorageOperation) -> (result: Result<
    (),
    StorageServiceError,
>)
    ensures
        result is Ok <==> artifact_ref_spec(artifact_id@),
        result matches Err(error) ==> {
            &&& error.code == StorageErrorCode::InvalidRequest
            &&& error.operation == operation
            &&& error.message@
                == "artifactId 必须以 artifact_ 开头，后续只能包含 ASCII 字母、数字、点、下划线和连字符。"@
            &&& error.path is None
            &&& error.artifact_id is None
        },
{
    if artifact_id_is_valid(artifact_id) {
        Ok(())
    } else {
        Err(
            StorageServiceError::new(
                StorageErrorCode::InvalidRequest,
                operation,
                "artifactId 必须以 artifact_ 开头，后续只能包含 ASCII 字母、数字、点、下划线和连字符。",
            ),
        )
    }
}

/// Checks a media import receipt identifier: 64 lowercase hexadecimal digits.
pub fn validate_media_receipt_id(receipt_id: &str, operation: StorageOperation) -> (result: Result<
    (),
    StorageServiceError,
>)
    ensures
        result is Ok <==> receipt_id_spec(receipt_id@),
        result matches Err(error) ==> {
            &&& error.code == StorageErrorCode::InvalidRequest
            &&& error.operation == operation
            &&& error.message@ == "媒体导入 receiptId 必须是 64 位小写十六进制摘要。"@
            &&& error.path is None
            &&& error.artifact_id is None
        },
{
    if receipt_id_is_valid(receipt_id) {
        Ok(())
    } else {
        Err(
            StorageServiceError::new(
                StorageErrorCode::InvalidRequest,
                operation,
                "媒体导入 receiptId 必须是 64 位小写十六进制摘要。",
            ),
        )
    }
}

} // verus!
