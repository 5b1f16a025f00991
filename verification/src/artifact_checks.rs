use vstd::prelude::*;

use crate::identifiers::artifact_ref_spec;
use crate::staged_source::{content_hash_spec, content_uri_for_hash, content_uri_spec};
use crate::storage_error::{opt_view, StorageErrorCode, StorageOperation, StorageServiceError};
use crate::storage_rules::{artifact_id_is_valid, decimal, invalid_artifact, push_decimal};
use crate::text::{chars_of, same_text};
use crate::uri::{split_chars, split_spec};

verus! {

/// The largest artifact metadata file read, in bytes.
pub const MAX_ARTIFACT_METADATA_BYTES: u64 = 1024 * 1024;

/// A storage error with an owned message.
fn owned_error(code: StorageErrorCode, operation: StorageOperation, message: String) -> (error:
    StorageServiceError)
    ensures
        error.code == code,
        error.operation == operation,
        error.message@ == message@,
        error.path is None,
        error.artifact_id is None,
{
    StorageServiceError { code, operation, message, path: None, artifact_id: None }
}

/// The project-relative location of an artifact's metadata.
pub fn metadata_uri_for(artifact_id: &str) -> (uri: String)
    ensures
        uri@ == "artifacts/metadata/"@ + artifact_id@ + ".json"@,
{
    let mut uri = String::from_str("artifacts/metadata/");
    uri.append(artifact_id);
    uri.append(".json");
    uri
}

/// A text field an artifact document must hold (`None` when it is missing
/// or not a text).
pub fn required_field(value: Option<&str>, field: &str, operation: StorageOperation) -> (result:
    Result<String, StorageServiceError>)
    ensures
        result is Ok <==> value is Some,
        result matches Ok(text) ==> Some(text@) == match value {
            Some(v) => Some(v@),
            None => None::<Seq<char>>,
        },
        result matches Err(error) ==> {
            &&& error.code == StorageErrorCode::InvalidArtifact
            &&& error.operation == operation
            &&& error.message@ == "Artifact 缺少字符串字段 "@ + field@ + "。"@
        },
{
    match value {
        Some(text) => Ok(text.to_owned()),
        None => {
            let mut message = String::from_str("Artifact 缺少字符串字段 ");
            message.append(field);
            message.append("。");
            Err(owned_error(StorageErrorCode::InvalidArtifact, operation, message))
        },
    }
}

/// An integer field an artifact document must hold (`None` when it is
/// missing or not a non-negative integer).
pub fn required_count(value: Option<u64>, field: &str, operation: StorageOperation) -> (result:
    Result<u64, StorageServiceError>)
    ensures
        result is Ok <==> value is Some,
        result matches Ok(n) ==> value == Some(n),
        result matches Err(error) ==> {
            &&& error.code == StorageErrorCode::InvalidArtifact
            &&& error.operation == operation
            &&& error.message@ == "Artifact 缺少整数数字段 "@ + field@ + "。"@
        },
{
    match value {
        Some(n) => Ok(n),
        None => {
            let mut message = String::from_str("Artifact 缺少整数数字段 ");
            message.append(field);
            message.append("。");
            Err(owned_error(StorageErrorCode::InvalidArtifact, operation, message))
        },
    }
}

/// Checks what the file system says of an artifact metadata file: present,
/// a regular file, and at most 1 MiB.
pub fn validate_metadata_file(
    present: bool,
    is_file: bool,
    length: u64,
    operation: StorageOperation,
    path: &str,
) -> (result: Result<(), StorageServiceError>)
    ensures
        result is Ok <==> present && is_file && length <= MAX_ARTIFACT_METADATA_BYTES,
        result matches Err(error) ==> {
            &&& error.operation == operation
            &&& opt_view(error.path) == Some(path@)
            &&& if !present {
                error.code == StorageErrorCode::ArtifactNotFound && error.message@ == "Artifact 元数据不存在。"@
            } else if !is_file {
                error.code == StorageErrorCode::InvalidArtifact && error.message@
                    == "Artifact 元数据不是普通文件。"@
            } else {
                error.code == StorageErrorCode::InvalidArtifact && error.message@
                    == "Artifact 元数据超过 1 MiB 上限。"@
            }
        },
{
    if !present {
        return Err(
            StorageServiceError::new(
                StorageErrorCode::ArtifactNotFound,
                operation,
                "Artifact 元数据不存在。",
            ).at_path(path),
        );
    }
    if !is_file {
        return Err(invalid_artifact(operation, "Artifact 元数据不是普通文件。").at_path(path));
    }
    if length > MAX_ARTIFACT_METADATA_BYTES {
        return Err(invalid_artifact(operation, "Artifact 元数据超过 1 MiB 上限。").at_path(path));
    }
    Ok(())
}

/// Checks that a metadata document is an artifact document.
pub fn check_document_type(document_type: Option<&str>, operation: StorageOperation, path: &str) -> (result:
    Result<(), StorageServiceError>)
    ensures
        result is Ok <==> (document_type matches Some(t) && t@ == "artifact"@),
        result matches Err(error) ==> {
            &&& error.code == StorageErrorCode::InvalidArtifact
            &&& error.operation == operation
            &&& error.message@ == "元数据文档类型不是 artifact。"@
            &&& opt_view(error.path) == Some(path@)
        },
{
    let is_artifact = match document_type {
        Some(t) => same_text(t, "artifact"),
        None => false,
    };
    if !is_artifact {
        return Err(invalid_artifact(operation, "元数据文档类型不是 artifact。").at_path(path));
    }
    Ok(())
}

/// The source of an artifact document, as far as the stored hash check reads
/// it: whether it is an object, and its origin and declared source hash when
/// they are texts.
#[derive(Debug, Clone, PartialEq, Eq)]
pub struct ArtifactSourceFacts {
    pub is_object: bool,
    pub origin: Option<String>,
    pub source_content_hash: Option<String>,
}

/// Why an artifact's source is refused against its stored content hash, if
/// it is: an imported artifact must declare the hash it was imported with,
/// equal to the stored one.
pub open spec fn imported_source_refusal(source: ArtifactSourceFacts, content_hash: Option<Seq<char>>) -> Option<
    Seq<char>,
> {
    if !source.is_object {
        Some("Artifact 缺少 source 对象。"@)
    } else if opt_view(source.origin) != Some("imported"@) {
        None
    } else if content_hash is None {
        Some("Artifact 缺少字符串字段 "@ + "contentHash"@ + "。"@)
    } else if source.source_content_hash is None {
        Some("导入 Artifact 缺少 sourceContentHash。"@)
    } else if opt_view(source.source_content_hash) != content_hash {
        Some("导入 Artifact 的 sourceContentHash 与实际存储内容哈希不一致。"@)
    } else {
        None
    }
}

/// Checks that an imported artifact declares the content hash it is stored
/// under.
pub fn validate_imported_source_hash(
    source: &ArtifactSourceFacts,
    content_hash: Option<&str>,
    operation: StorageOperation,
) -> (result: Result<(), StorageServiceError>)
    ensures
        ({
            let stored = match content_hash {
                Some(h) => Some(h@),
                None => None::<Seq<char>>,
            };
            &&& result is Ok <==> imported_source_refusal(*source, stored) is None
            &&& result matches Err(error) ==> error.code == StorageErrorCode::InvalidArtifact
                && error.operation == operation && Some(error.message@) == imported_source_refusal(
                *source,
                stored,
            )
        }),
{
    proof {
        reveal_strlit("imported");
        reveal_strlit("contentHash");
    }
    if !source.is_object {
        return Err(invalid_artifact(operation, "Artifact 缺少 source 对象。"));
    }
    let imported = match &source.origin {
        Some(origin) => same_text(origin.as_str(), "imported"),
        None => false,
    };
    if !imported {
        return Ok(());
    }
    let stored = required_field(content_hash, "contentHash", operation)?;
    let declared = match &source.source_content_hash {
        Some(declared) => declared,
        None => {
            return Err(invalid_artifact(operation, "导入 Artifact 缺少 sourceContentHash。"));
        },
    };
    if !same_text(declared.as_str(), stored.as_str()) {
        return Err(
            invalid_artifact(operation, "导入 Artifact 的 sourceContentHash 与实际存储内容哈希不一致。"),
        );
    }
    Ok(())
}

/// Checks an artifact read by its identifier: the metadata must name the
/// same artifact and place its content at the address of its hash. Returns
/// the content's location.
pub fn check_read_identity(
    artifact_id: &str,
    declared_artifact_id: &str,
    content_hash: &str,
    declared_uri: &str,
    operation: StorageOperation,
    metadata_path: &str,
) -> (result: Result<String, StorageServiceError>)
    ensures
        result is Ok <==> declared_artifact_id@ == artifact_id@ && content_hash_spec(content_hash@)
            && declared_uri@ == content_uri_spec(content_hash@.skip(7)),
        result matches Ok(uri) ==> uri@ == content_uri_spec(content_hash@.skip(7)),
        result matches Err(error) ==> error.operation == operation && if declared_artifact_id@
            != artifact_id@ {
            &&& error.code == StorageErrorCode::ArtifactConflict
            &&& error.message@ == "Artifact 元数据文件名与 artifactId 不一致。"@
            &&& opt_view(error.path) == Some(metadata_path@)
            &&& opt_view(error.artifact_id) == Some(artifact_id@)
        } else if !content_hash_spec(content_hash@) {
            error.code == StorageErrorCode::InvalidArtifact
        } else {
            &&& error.code == StorageErrorCode::InvalidArtifact
            &&& error.message@ == "Artifact uri 必须与 SHA-256 内容寻址路径完全一致。"@
            &&& opt_view(error.path) == Some(metadata_path@)
            &&& opt_view(error.artifact_id) == Some(artifact_id@)
        },
{
    if !same_text(declared_artifact_id, artifact_id) {
        return Err(
            StorageServiceError::new(
                StorageErrorCode::ArtifactConflict,
                operation,
                "Artifact 元数据文件名与 artifactId 不一致。",
            ).at_path(metadata_path).for_artifact(artifact_id),
        );
    }
    let content_uri = content_uri_for_hash(content_hash, operation)?;
    if !same_text(declared_uri, content_uri.as_str()) {
        return Err(
            StorageServiceError::new(
                StorageErrorCode::InvalidArtifact,
                operation,
                "Artifact uri 必须与 SHA-256 内容寻址路径完全一致。",
            ).at_path(metadata_path).for_artifact(artifact_id),
        );
    }
    Ok(content_uri)
}

/// Takes in one metadata file found while rebuilding an index: it must be a
/// `.json` file, and the metadata read so far must stay within `limit` bytes.
pub fn count_metadata_file(
    total: &mut u64,
    limit: u64,
    extension: Option<&str>,
    length: u64,
    operation: StorageOperation,
    path: &str,
    metadata_dir: &str,
) -> (result: Result<(), StorageServiceError>)
    ensures
        ({
            let is_json = extension matches Some(e) && e@ == "json"@;
            let sum = *old(total) + length;
            &&& result is Ok <==> is_json && sum <= limit
            &&& result is Ok ==> *final(total) == sum
            &&& result matches Err(error) ==> error.operation == operation && if !is_json {
                &&& error.code == StorageErrorCode::InvalidArtifact
                &&& error.message@ == "Artifact 元数据目录只能包含 .json 文件。"@
                &&& opt_view(error.path) == Some(path@)
            } else if sum > u64::MAX {
                &&& error.code == StorageErrorCode::ScanLimitExceeded
                &&& error.message@ == "Artifact 元数据扫描字节数溢出。"@
                &&& opt_view(error.path) == Some(metadata_dir@)
            } else {
                &&& error.code == StorageErrorCode::ScanLimitExceeded
                &&& error.message@ == "同步索引最多扫描 "@ + decimal(limit as nat) + " 字节 Artifact 元数据。"@
                &&& opt_view(error.path) == Some(metadata_dir@)
            }
        }),
{
    let is_json = match extension {
        Some(e) => same_text(e, "json"),
        None => false,
    };
    if !is_json {
        return Err(
            StorageServiceError::new(
                StorageErrorCode::InvalidArtifact,
                operation,
                "Artifact 元数据目录只能包含 .json 文件。",
            ).at_path(path),
        );
    }
    let sum = match total.checked_add(length) {
        Some(sum) => sum,
        None => {
            return Err(
                StorageServiceError::new(
                    StorageErrorCode::ScanLimitExceeded,
                    operation,
                    "Artifact 元数据扫描字节数溢出。",
                ).at_path(metadata_dir),
            );
        },
    };
    if sum > limit {
        let mut message = String::from_str("同步索引最多扫描 ");
        push_decimal(&mut message, limit);
        message.append(" 字节 Artifact 元数据。");
        return Err(owned_error(StorageErrorCode::ScanLimitExceeded, operation, message).at_path(metadata_dir));
    }
    *total = sum;
    Ok(())
}

/// Checks the identity of an artifact found while rebuilding an index: a
/// safe artifact identifier that names its metadata file, and content at the
/// address of its hash. Returns the content's location.
pub fn check_scanned_identity(
    file_stem: Option<&str>,
    artifact_id: &str,
    content_hash: &str,
    declared_uri: &str,
    operation: StorageOperation,
    path: &str,
) -> (result: Result<String, StorageServiceError>)
    ensures
        result is Ok <==> artifact_ref_spec(artifact_id@) && (file_stem matches Some(stem) && stem@
            == artifact_id@) && content_hash_spec(content_hash@) && declared_uri@ == content_uri_spec(
            content_hash@.skip(7),
        ),
        result matches Ok(uri) ==> uri@ == content_uri_spec(content_hash@.skip(7)),
        result matches Err(error) ==> error.operation == operation && if !artifact_ref_spec(
            artifact_id@,
        ) {
            &&& error.code == StorageErrorCode::InvalidArtifact
            &&& error.message@
                == "Artifact 元数据中的 artifactId 不是安全、可移植的 artifact_ 文件身份。"@
            &&& opt_view(error.path) == Some(path@)
        } else if !(file_stem matches Some(stem) && stem@ == artifact_id@) {
            &&& error.code == StorageErrorCode::ArtifactConflict
            &&& error.message@ == "Artifact 元数据文件名与 artifactId 不一致。"@
            &&& opt_view(error.path) == Some(path@)
            &&& opt_view(error.artifact_id) == Some(artifact_id@)
        } else if !content_hash_spec(content_hash@) {
            error.code == StorageErrorCode::InvalidArtifact
        } else {
            &&& error.code == StorageErrorCode::InvalidArtifact
            &&& error.message@ == "Artifact uri 与内容哈希不一致。"@
            &&& opt_view(error.path) == Some(path@)
            &&& opt_view(error.artifact_id) == Some(artifact_id@)
        },
{
    if !artifact_id_is_valid(artifact_id) {
        return Err(
            invalid_artifact(
                operation,
                "Artifact 元数据中的 artifactId 不是安全、可移植的 artifact_ 文件身份。",
            ).at_path(path),
        );
    }
    let named = match file_stem {
        Some(stem) => same_text(stem, artifact_id),
        None => false,
    };
    if !named {
        return Err(
            StorageServiceError::new(
                StorageErrorCode::ArtifactConflict,
                operation,
                "Artifact 元数据文件名与 artifactId 不一致。",
            ).at_path(path).for_artifact(artifact_id),
        );
    }
    let content_uri = content_uri_for_hash(content_hash, operation)?;
    if !same_text(declared_uri, content_uri.as_str()) {
        return Err(
            StorageServiceError::new(
                StorageErrorCode::InvalidArtifact,
                operation,
                "Artifact uri 与内容哈希不一致。",
            ).at_path(path).for_artifact(artifact_id),
        );
    }
    Ok(content_uri)
}

/// A safe project-relative URI: non-empty, no backslash, not absolute, and
/// no empty, `.` or `..` component.
pub open spec fn portable_uri_refusal(uri: Seq<char>) -> Option<Seq<char>> {
    let parts = split_spec(uri, '/');
    if uri.len() == 0 || uri.contains('\\') || uri[0] == '/' {
        Some("Artifact URI 不是安全的项目相对路径。"@)
    } else if exists|k: int|
        0 <= k < parts.len() && (parts[k].len() == 0 || parts[k] == "."@ || parts[k] == ".."@) {
        Some("Artifact URI 包含空、当前或父级路径组件。"@)
    } else {
        None
    }
}

/// The components of a project-relative artifact URI, refused unless it is
/// safe (see [`portable_uri_refusal`]).
pub fn portable_uri_components(uri: &str, operation: StorageOperation) -> (result: Result<
    Vec<Vec<char>>,
    StorageServiceError,
>)
    ensures
        result is Ok <==> portable_uri_refusal(uri@) is None,
        result matches Ok(parts) ==> parts@.map_values(|p: Vec<char>| p@) == split_spec(uri@, '/'),
        result matches Err(error) ==> error.code == StorageErrorCode::InvalidArtifact
            && error.operation == operation && Some(error.message@) == portable_uri_refusal(uri@),
{
    proof {
        reveal_strlit(".");
        reveal_strlit("..");
    }
    let chars = chars_of(uri);
    let mut has_backslash = false;
    let mut i: usize = 0;
    while i < chars.len()
        invariant
            0 <= i <= chars@.len(),
            has_backslash == exists|j: int| 0 <= j < i && chars@[j] == '\\',
        decreases chars@.len() - i,
    {
        if chars[i] == '\\' {
            has_backslash = true;
        }
        i = i + 1;
    }
    proof {
        if has_backslash {
            let j = choose|j: int| 0 <= j < chars@.len() && chars@[j] == '\\';
            assert(uri@.contains('\\')) by {
                assert(uri@[j] == '\\');
            }
        }
    }
    if chars.len() == 0 || has_backslash || chars[0] == '/' {
        return Err(invalid_artifact(operation, "Artifact URI 不是安全的项目相对路径。"));
    }
    let parts = split_chars(&chars, '/');
    let ghost views = parts@.map_values(|p: Vec<char>| p@);
    let mut k: usize = 0;
    while k < parts.len()
        invariant
            views == parts@.map_values(|p: Vec<char>| p@),
            views == split_spec(uri@, '/'),
            !(uri@.len() == 0 || uri@.contains('\\') || uri@[0] == '/'),
            0 <= k <= parts@.len(),
            forall|q: int|
                0 <= q < k ==> !((#[trigger] views[q]).len() == 0 || views[q] == "."@ || views[q] == ".."@),
        decreases parts@.len() - k,
    {
        let part = &parts[k];
        assert(views[k as int] == part@);
        let n = part.len();
        let dots = n > 0 && n <= 2 && part[0] == '.' && part[n - 1] == '.';
        proof {
            reveal_strlit(".");
            reveal_strlit("..");
            if n == 1 && dots {
                assert(part@ =~= "."@);
            }
            if n == 2 && dots {
                assert(part@ =~= ".."@);
            }
        }
        if n == 0 || dots {
            assert(views[k as int].len() == 0 || views[k as int] == "."@ || views[k as int] == ".."@);
            return Err(invalid_artifact(operation, "Artifact URI 包含空、当前或父级路径组件。"));
        }
        k = k + 1;
    }
    Ok(parts)
}

/// Admits one more entry of an artifact metadata directory that has already
/// given `count` entries: one synchronous index rebuild processes at most
/// `max_entries` artifacts.
pub fn admit_metadata_entry(
    count: usize,
    max_entries: usize,
    operation: StorageOperation,
    directory: &str,
) -> (result: Result<(), StorageServiceError>)
    ensures
        result is Ok <==> count < max_entries,
        result matches Err(error) ==> {
            &&& error.code == StorageErrorCode::ScanLimitExceeded
            &&& error.operation == operation
            &&& error.message@ == "单项目同步索引最多处理 "@ + decimal(max_entries as nat) + " 个 Artifact。"@
            &&& opt_view(error.path) == Some(directory@)
            &&& error.artifact_id is None
        },
{
    if count < max_entries {
        return Ok(());
    }
    let mut message = String::from_str("单项目同步索引最多处理 ");
    push_decimal(&mut message, max_entries as u64);
    message.append(" 个 Artifact。");
    Err(
        StorageServiceError {
            code: StorageErrorCode::ScanLimitExceeded,
            operation,
            message,
            path: Some(directory.to_owned()),
            artifact_id: None,
        },
    )
}

} // verus!
