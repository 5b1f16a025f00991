use vstd::prelude::*;

use crate::services::MAX_SYNCHRONOUS_ARTIFACT_BYTES;
use crate::storage_error::{opt_view, StorageErrorCode, StorageOperation, StorageServiceError};
use crate::storage_rules::{decimal, push_decimal};
use crate::identifiers::all_distinct;
use crate::job_index::{signed_padded, zero_padded};
use crate::storage_types::{
    job_status_name, ArtifactVerificationStatusData, IndexedJobStatusData, ListIndexedJobsOptions,
    RecentProjectData,
};
use crate::text::{chars_of, same_text, trim_chars, trim_spec};

verus! {

/// A storage error with an owned message.
fn owned_error(code: StorageErrorCode, operation: StorageOperation, message: String) -> (error:
    StorageServiceError)
    ensures
        error.code == code,
        error.operation == operation,
        error.message@ == message@,
        error.path is None,
        error.artifact_id is None,
{
    StorageServiceError { code, operation, message, path: None, artifact_id: None }
}

/// Checks how many recent projects a listing asks for: 1 to 100.
pub fn validate_recent_projects_limit(limit: u32) -> (result: Result<(), StorageServiceError>)
    ensures
        result is Ok <==> 1 <= limit <= 100,
        result matches Err(error) ==> {
            &&& error.code == StorageErrorCode::InvalidRequest
            &&& error.operation == StorageOperation::ListRecentProjects
            &&& error.message@ == "最近项目 limit 必须位于 1..=100。"@
        },
{
    if limit < 1 || limit > 100 {
        return Err(
            StorageServiceError::new(
                StorageErrorCode::InvalidRequest,
                StorageOperation::ListRecentProjects,
                "最近项目 limit 必须位于 1..=100。",
            ),
        );
    }
    Ok(())
}

/// One row of the recent projects index, newest first, with whether its
/// directory is still there.
#[derive(Debug, Clone, PartialEq, Eq)]
pub struct RecentProjectRow {
    pub project_id: String,
    pub project_path: String,
    pub name: String,
    pub workflow_definition_id: String,
    pub project_format_version: i64,
    pub archived: i64,
    pub last_opened_at: String,
    pub marker_updated_at: String,
    pub path_available: bool,
}

/// The rows picked from the first `n` rows (`None` when a row read before
/// the listing was full holds a format version that does not fit 32 bits):
/// rows are read in order until `limit` are picked, and a row is picked when
/// its directory is there or missing ones are wanted.
pub open spec fn recent_picks(rows: Seq<RecentProjectRow>, limit: nat, include_missing: bool, n: int) -> Option<
    Seq<int>,
>
    decreases n,
{
    if n <= 0 {
        Some(Seq::empty())
    } else {
        match recent_picks(rows, limit, include_missing, n - 1) {
            None => None,
            Some(picked) => if picked.len() == limit {
                Some(picked)
            } else if !(0 <= rows[n - 1].project_format_version <= u32::MAX) {
                None
            } else if include_missing || rows[n - 1].path_available {
                Some(picked.push(n - 1))
            } else {
                Some(picked)
            },
        }
    }
}

/// The listed project reports the row.
pub open spec fn lists_row(project: RecentProjectData, row: RecentProjectRow) -> bool {
    &&& project.project_id@ == row.project_id@
    &&& project.project_path@ == row.project_path@
    &&& project.name@ == row.name@
    &&& project.workflow_definition_id@ == row.workflow_definition_id@
    &&& project.project_format_version == row.project_format_version
    &&& project.archived == (row.archived != 0)
    &&& project.last_opened_at@ == row.last_opened_at@
    &&& project.marker_updated_at@ == row.marker_updated_at@
    &&& project.path_available == row.path_available
}

/// Picks at most `limit` recent projects from the index rows, newest first,
/// leaving out those whose directory is gone unless `include_missing`.
pub fn select_recent_projects(
    rows: &[RecentProjectRow],
    limit: u32,
    include_missing: bool,
    index_path: &str,
) -> (result: Result<Vec<RecentProjectData>, StorageServiceError>)
    requires
        1 <= limit,
    ensures
        ({
            let picks = recent_picks(rows@, limit as nat, include_missing, rows@.len() as int);
            &&& result is Ok <==> picks is Some
            &&& result matches Ok(projects) ==> {
                &&& projects@.len() == picks.unwrap().len()
                &&& forall|k: int|
                    0 <= k < projects@.len() ==> lists_row(
                        #[trigger] projects@[k],
                        rows@[picks.unwrap()[k]],
                    )
            }
            &&& result matches Err(error) ==> {
                &&& error.code == StorageErrorCode::IndexUnavailable
                &&& error.operation == StorageOperation::ListRecentProjects
                &&& error.message@ == "最近项目索引包含超出 u32 的格式版本。"@
                &&& opt_view(error.path) == Some(index_path@)
            }
        }),
{
    let mut projects: Vec<RecentProjectData> = Vec::new();
    let ghost mut picked: Seq<int> = Seq::empty();
    let mut i: usize = 0;
    while i < rows.len()
        invariant
            0 <= i <= rows@.len(),
            1 <= limit,
            recent_picks(rows@, limit as nat, include_missing, i as int) == Some(picked),
            projects@.len() == picked.len() < limit,
            forall|q: int| 0 <= q < picked.len() ==> 0 <= #[trigger] picked[q] < i,
            forall|k: int| 0 <= k < projects@.len() ==> lists_row(#[trigger] projects@[k], rows@[picked[k]]),
        decreases rows@.len() - i,
    {
        let row = &rows[i];
        if row.project_format_version < 0 || row.project_format_version > u32::MAX as i64 {
            proof {
                lemma_recent_picks_fail_stays(rows@, limit as nat, include_missing, i + 1, rows@.len() as int);
            }
            return Err(
                StorageServiceError::new(
                    StorageErrorCode::IndexUnavailable,
                    StorageOperation::ListRecentProjects,
                    "最近项目索引包含超出 u32 的格式版本。",
                ).at_path(index_path),
            );
        }
        if include_missing || row.path_available {
            projects.push(
                RecentProjectData {
                    project_id: row.project_id.clone(),
                    project_path: row.project_path.clone(),
                    name: row.name.clone(),
                    workflow_definition_id: row.workflow_definition_id.clone(),
                    project_format_version: row.project_format_version as u32,
                    archived: row.archived != 0,
                    last_opened_at: row.last_opened_at.clone(),
                    marker_updated_at: row.marker_updated_at.clone(),
                    path_available: row.path_available,
                },
            );
            proof {
                picked = picked.push(i as int);
            }
        }
        i = i + 1;
        if projects.len() == limit as usize {
            proof {
                lemma_recent_picks_full_stays(rows@, limit as nat, include_missing, i as int, rows@.len() as int);
            }
            return Ok(projects);
        }
    }
    Ok(projects)
}

/// Once a row fails, the listing fails.
proof fn lemma_recent_picks_fail_stays(
    rows: Seq<RecentProjectRow>,
    limit: nat,
    include_missing: bool,
    m: int,
    n: int,
)
    requires
        0 < m <= n,
        recent_picks(rows, limit, include_missing, m) is None,
    ensures
        recent_picks(rows, limit, include_missing, n) is None,
    decreases n - m,
{
    if m < n {
        lemma_recent_picks_fail_stays(rows, limit, include_missing, m, n - 1);
    }
}

/// Once the listing is full, later rows are not read.
proof fn lemma_recent_picks_full_stays(
    rows: Seq<RecentProjectRow>,
    limit: nat,
    include_missing: bool,
    m: int,
    n: int,
)
    requires
        0 <= m <= n,
        recent_picks(rows, limit, include_missing, m) matches Some(picked) && picked.len() == limit,
    ensures
        recent_picks(rows, limit, include_missing, n) == recent_picks(rows, limit, include_missing, m),
    decreases n - m,
{
    if m < n {
        lemma_recent_picks_full_stays(rows, limit, include_missing, m, n - 1);
    }
}

/// Checks the project identifier a caller asks the index to forget.
pub fn validate_forget_project_id(owner_project_id: &str) -> (result: Result<(), StorageServiceError>)
    ensures
        result is Ok <==> trim_spec(owner_project_id@).len() > 0,
        result matches Err(error) ==> {
            &&& error.code == StorageErrorCode::InvalidRequest
            &&& error.operation == StorageOperation::ForgetProject
            &&& error.message@ == "ownerProjectId 不能为空。"@
        },
{
    if trim_chars(&chars_of(owner_project_id)).len() == 0 {
        return Err(
            StorageServiceError::new(
                StorageErrorCode::InvalidRequest,
                StorageOperation::ForgetProject,
                "ownerProjectId 不能为空。",
            ),
        );
    }
    Ok(())
}

/// Checks the byte limit of a bounded content read: between one byte and the
/// service's artifact limit.
pub fn validate_content_read_limit(max_bytes: u64, max_artifact_bytes: u64) -> (result: Result<
    (),
    StorageServiceError,
>)
    ensures
        result is Ok <==> 0 < max_bytes <= max_artifact_bytes,
        result matches Err(error) ==> {
            &&& error.code == StorageErrorCode::InvalidRequest
            &&& error.operation == StorageOperation::GetArtifact
            &&& error.message@ == "内容读取上限必须位于 1..="@ + decimal(max_artifact_bytes as nat)
                + " 字节。"@
        },
{
    if max_bytes == 0 || max_bytes > max_artifact_bytes {
        let mut message = String::from_str("内容读取上限必须位于 1..=");
        push_decimal(&mut message, max_artifact_bytes);
        message.append(" 字节。");
        return Err(owned_error(StorageErrorCode::InvalidRequest, StorageOperation::GetArtifact, message));
    }
    Ok(())
}

/// Checks content read back against the artifact's immutable metadata: the
/// content must be there, and its hash and length must match.
pub fn check_read_content(
    content_available: bool,
    expected_hash: &str,
    expected_length: u64,
    actual_hash: &str,
    actual_length: u64,
    artifact_id: &str,
    content_path: &str,
) -> (result: Result<(), StorageServiceError>)
    ensures
        result is Ok <==> content_available && actual_hash@ == expected_hash@ && actual_length
            == expected_length,
        result matches Err(error) ==> {
            &&& error.code == StorageErrorCode::ContentCorrupt
            &&& error.operation == StorageOperation::GetArtifact
            &&& opt_view(error.artifact_id) == Some(artifact_id@)
            &&& if !content_available {
                error.message@ == "Artifact 内容对象不存在。"@ && error.path is None
            } else {
                error.message@ == "Artifact 内容哈希或字节数与不可变元数据不一致。"@ && opt_view(
                    error.path,
                ) == Some(content_path@)
            }
        },
{
    if !content_available {
        return Err(
            StorageServiceError::new(
                StorageErrorCode::ContentCorrupt,
                StorageOperation::GetArtifact,
                "Artifact 内容对象不存在。",
            ).for_artifact(artifact_id),
        );
    }
    if !same_text(actual_hash, expected_hash) || actual_length != expected_length {
        return Err(
            StorageServiceError::new(
                StorageErrorCode::ContentCorrupt,
                StorageOperation::GetArtifact,
                "Artifact 内容哈希或字节数与不可变元数据不一致。",
            ).at_path(content_path).for_artifact(artifact_id),
        );
    }
    Ok(())
}

/// What checking stored content of the hash and length `actual` finds:
/// missing content, a length that differs, a hash that differs, or content as
/// recorded (the length is compared first).
pub open spec fn verification_status_spec(
    actual: Option<(Seq<char>, u64)>,
    expected_hash: Seq<char>,
    expected_length: u64,
) -> ArtifactVerificationStatusData {
    match actual {
        None => ArtifactVerificationStatusData::MissingContent,
        Some((hash, length)) => if length != expected_length {
            ArtifactVerificationStatusData::ByteLengthMismatch
        } else if hash != expected_hash {
            ArtifactVerificationStatusData::HashMismatch
        } else {
            ArtifactVerificationStatusData::Verified
        },
    }
}

/// Decides [`verification_status_spec`].
pub fn verification_status(
    expected_hash: &str,
    expected_length: u64,
    actual: Option<(&str, u64)>,
) -> (status: ArtifactVerificationStatusData)
    ensures
        status == verification_status_spec(
            match actual {
                Some((hash, length)) => Some((hash@, length)),
                None => None,
            },
            expected_hash@,
            expected_length,
        ),
{
    match actual {
        None => ArtifactVerificationStatusData::MissingContent,
        Some((hash, length)) => {
            if length != expected_length {
                ArtifactVerificationStatusData::ByteLengthMismatch
            } else if !same_text(hash, expected_hash) {
                ArtifactVerificationStatusData::HashMismatch
            } else {
                ArtifactVerificationStatusData::Verified
            }
        },
    }
}

/// Why a job listing is refused: a limit outside 1..=200, a blank project
/// filter, or a state named twice.
pub open spec fn list_jobs_refusal(options: ListIndexedJobsOptions) -> Option<Seq<char>> {
    if !(1 <= options.limit <= 200) {
        Some("任务摘要 limit 必须位于 1..=200。"@)
    } else if options.owner_project_id is Some && trim_spec(
        options.owner_project_id.unwrap()@,
    ).len() == 0 {
        Some("ownerProjectId 过滤器不能为空。"@)
    } else if !all_distinct(options.statuses@) {
        Some("任务状态过滤器不能包含重复值。"@)
    } else {
        None
    }
}

/// Checks the filters and limit of a job listing.
#[verifier::loop_isolation(false)]
pub fn validate_list_indexed_jobs_options(options: &ListIndexedJobsOptions) -> (result: Result<
    (),
    StorageServiceError,
>)
    ensures
        match list_jobs_refusal(*options) {
            Some(message) => result matches Err(error) && {
                &&& error.code == StorageErrorCode::InvalidRequest
                &&& error.operation == StorageOperation::ListIndexedJobs
                &&& error.message@ == message
                &&& error.path is None
                &&& error.artifact_id is None
            },
            None => result is Ok,
        },
{
    let operation = StorageOperation::ListIndexedJobs;
    if options.limit < 1 || options.limit > 200 {
        return Err(
            StorageServiceError::new(
                StorageErrorCode::InvalidRequest,
                operation,
                "任务摘要 limit 必须位于 1..=200。",
            ),
        );
    }
    if let Some(owner) = &options.owner_project_id {
        if trim_chars(&chars_of(owner.as_str())).len() == 0 {
            return Err(
                StorageServiceError::new(
                    StorageErrorCode::InvalidRequest,
                    operation,
                    "ownerProjectId 过滤器不能为空。",
                ),
            );
        }
    }
    let statuses = &options.statuses;
    let mut i: usize = 0;
    while i < statuses.len()
        invariant
            0 <= i <= statuses@.len(),
            forall|a: int, b: int| 0 <= a < b < i ==> statuses@[a] != statuses@[b],
        decreases statuses@.len() - i,
    {
        let mut j: usize = 0;
        while j < i
            invariant
                0 <= j <= i < statuses@.len(),
                forall|a: int| 0 <= a < j ==> statuses@[a] != statuses@[i as int],
            decreases i - j,
        {
            if statuses[j] == statuses[i] {
                assert(!all_distinct(options.statuses@));
                return Err(
                    StorageServiceError::new(
                        StorageErrorCode::InvalidRequest,
                        operation,
                        "任务状态过滤器不能包含重复值。",
                    ),
                );
            }
            j = j + 1;
        }
        i = i + 1;
    }
    Ok(())
}

/// The state and attempt of a stored job summary row: refused when the state
/// has no known name or the attempt does not fit 32 bits.
pub fn indexed_job_row_fields(status: &str, attempt: i64, index_path: &str) -> (result: Result<
    (IndexedJobStatusData, u32),
    StorageServiceError,
>)
    ensures
        match result {
            Ok((state, count)) => job_status_name(state) == status@ && count == attempt,
            Err(error) => {
                &&& error.code == StorageErrorCode::IndexUnavailable
                &&& error.operation == StorageOperation::ListIndexedJobs
                &&& opt_view(error.path) == Some(index_path@)
                &&& error.artifact_id is None
                &&& if forall|s: IndexedJobStatusData| job_status_name(s) != status@ {
                    error.message@ == "任务索引包含未知状态。"@
                } else {
                    &&& !(0 <= attempt <= u32::MAX)
                    &&& error.message@ == "任务索引包含非法 attempt。"@
                }
            },
        },
{
    let operation = StorageOperation::ListIndexedJobs;
    let state = match IndexedJobStatusData::parse(status) {
        Some(state) => state,
        None => {
            return Err(
                StorageServiceError::new(
                    StorageErrorCode::IndexUnavailable,
                    operation,
                    "任务索引包含未知状态。",
                ).at_path(index_path),
            );
        },
    };
    if attempt < 0 || attempt > 4294967295i64 {
        return Err(
            StorageServiceError::new(
                StorageErrorCode::IndexUnavailable,
                operation,
                "任务索引包含非法 attempt。",
            ).at_path(index_path),
        );
    }
    Ok((state, attempt as u32))
}

/// The schema version of the SQLite index this release writes.
pub const INDEX_SCHEMA_VERSION: i64 = 2;

/// Appends `n` in decimal, with a minus sign when it is negative.
fn push_signed_decimal(text: &mut String, n: i64)
    ensures
        final(text)@ == old(text)@ + signed_padded(n as int, 0),
{
    if n < 0 {
        text.append("-");
        let magnitude: u64 = if n == i64::MIN {
            9223372036854775808u64
        } else {
            (-n) as u64
        };
        push_decimal(text, magnitude);
        proof {
            reveal_strlit("-");
            assert(zero_padded(magnitude as nat, 0) == decimal(magnitude as nat));
        }
    } else {
        push_decimal(text, n as u64);
        assert(zero_padded(n as nat, 0) == decimal(n as nat));
    }
}

/// Why the index's stored schema version is refused: it is newer than this
/// release, or no migration starts from it (only 0, 1 and the current version
/// are known).
pub open spec fn index_version_refusal(version: i64) -> Option<Seq<char>> {
    if version > INDEX_SCHEMA_VERSION {
        Some(
            "SQLite 索引版本 "@ + signed_padded(version as int, 0) + " 高于当前支持版本 "@ + decimal(
                INDEX_SCHEMA_VERSION as nat,
            ) + "。"@,
        )
    } else if !(version == 0 || version == 1 || version == INDEX_SCHEMA_VERSION) {
        Some("没有从 SQLite 索引版本 "@ + signed_padded(version as int, 0) + " 开始的迁移路径。"@)
    } else {
        None
    }
}

/// Checks the schema version stored in the SQLite index.
pub fn check_index_schema_version(version: i64, operation: StorageOperation, index_path: &str) -> (result: Result<
    i64,
    StorageServiceError,
>)
    ensures
        match index_version_refusal(version) {
            Some(message) => result matches Err(error) && {
                &&& error.code == StorageErrorCode::IndexMigrationFailed
                &&& error.operation == operation
                &&& error.message@ == message
                &&& opt_view(error.path) == Some(index_path@)
                &&& error.artifact_id is None
            },
            None => result == Ok::<i64, StorageServiceError>(version),
        },
{
    if version > INDEX_SCHEMA_VERSION {
        let mut message = String::from_str("SQLite 索引版本 ");
        push_signed_decimal(&mut message, version);
        message.append(" 高于当前支持版本 ");
        push_decimal(&mut message, INDEX_SCHEMA_VERSION as u64);
        message.append("。");
        return Err(
            StorageServiceError {
                code: StorageErrorCode::IndexMigrationFailed,
                operation,
                message,
                path: Some(index_path.to_owned()),
                artifact_id: None,
            },
        );
    }
    if !(version == 0 || version == 1 || version == INDEX_SCHEMA_VERSION) {
        let mut message = String::from_str("没有从 SQLite 索引版本 ");
        push_signed_decimal(&mut message, version);
        message.append(" 开始的迁移路径。");
        return Err(
            StorageServiceError {
                code: StorageErrorCode::IndexMigrationFailed,
                operation,
                message,
                path: Some(index_path.to_owned()),
                artifact_id: None,
            },
        );
    }
    Ok(version)
}

} // verus!
