use vstd::prelude::*;

use crate::text::same_text;

verus! {

/// The version of the storage commands' results.
pub const STORAGE_COMMAND_API_VERSION: &'static str = "1.0.0";

/// A request to copy a media source file into the project's staging area.
#[derive(Debug, Clone, PartialEq, Eq)]
pub struct StageMediaSourceFileOptions {
    pub project_path: String,
    pub expected_project_id: String,
    pub source_path: String,
    pub expected_content_hash: Option<String>,
    pub max_bytes: u64,
}

/// A request to locate a previously staged media source.
#[derive(Debug, Clone, PartialEq, Eq)]
pub struct ResolveStagedMediaSourceOptions {
    pub project_path: String,
    pub expected_project_id: String,
    pub staged_source_uri: String,
    pub expected_content_hash: String,
    pub expected_byte_length: u64,
    pub max_bytes: u64,
}

/// A staged media source, as staging reports it.
#[derive(Debug, Clone, PartialEq, Eq)]
pub struct StagedMediaSourceData {
    pub owner_project_id: String,
    pub staged_source_uri: String,
    pub source_file_name: String,
    pub content_hash: String,
    pub byte_length: u64,
    pub deduplicated: bool,
}

/// A staged media source, located on disk.
#[derive(Debug, Clone, PartialEq, Eq)]
pub struct ResolvedStagedMediaSourceData {
    pub owner_project_id: String,
    pub staged_source_uri: String,
    pub source_path: String,
    pub source_file_name: String,
    pub content_hash: String,
    pub byte_length: u64,
}

/// Whether the project index reflects the artifacts on disk.
#[derive(Debug, Clone, Copy, PartialEq, Eq, Hash, Structural)]
pub enum StorageIndexStatusData {
    UpToDate,
    RebuildRequired,
}

/// One artifact that a commit plans to write.
#[derive(Debug, Clone, PartialEq, Eq)]
pub struct ArtifactCommitPlanEntryData {
    pub artifact_id: String,
    pub kind: String,
}

/// The state of a commit journal.
#[derive(Debug, Clone, Copy, PartialEq, Eq, Structural)]
pub enum ArtifactCommitJournalStatusData {
    Pending,
    Completed,
}

/// The journal of a multi-artifact commit.
#[derive(Debug, Clone, PartialEq, Eq)]
pub struct ArtifactCommitJournalData {
    pub document_type: String,
    pub document_version: String,
    pub project_id: String,
    pub job_id: String,
    pub run_id: String,
    pub created_at: String,
    pub status: ArtifactCommitJournalStatusData,
    pub entries: Vec<ArtifactCommitPlanEntryData>,
}

/// The outcome of checking an artifact's stored content.
#[derive(Debug, Clone, Copy, PartialEq, Eq, Structural)]
pub enum ArtifactVerificationStatusData {
    Verified,
    MissingContent,
    HashMismatch,
    ByteLengthMismatch,
}

/// What checking an artifact's stored content found.
#[derive(Debug, Clone, PartialEq, Eq)]
pub struct ArtifactVerificationResultData {
    pub api_version: String,
    pub owner_project_id: String,
    pub artifact_id: String,
    pub status: ArtifactVerificationStatusData,
    pub expected_content_hash: String,
    pub actual_content_hash: Option<String>,
    pub expected_byte_length: u64,
    pub actual_byte_length: Option<u64>,
}

/// What rebuilding a project index found.
#[derive(Debug, Clone, PartialEq, Eq)]
pub struct ProjectIndexRebuildResultData {
    pub api_version: String,
    pub owner_project_id: String,
    pub artifacts_indexed: u64,
    pub missing_content_count: u64,
    pub index_status: StorageIndexStatusData,
}

/// One recently opened project.
#[derive(Debug, Clone, PartialEq, Eq)]
pub struct RecentProjectData {
    pub project_id: String,
    pub project_path: String,
    pub name: String,
    pub workflow_definition_id: String,
    pub project_format_version: u32,
    pub archived: bool,
    pub last_opened_at: String,
    pub marker_updated_at: String,
    pub path_available: bool,
}

/// The recently opened projects.
#[derive(Debug, Clone, PartialEq, Eq)]
pub struct RecentProjectsResultData {
    pub api_version: String,
    pub projects: Vec<RecentProjectData>,
}

/// The state of an indexed job.
#[derive(Debug, Clone, Copy, PartialEq, Eq, Hash, Structural)]
pub enum IndexedJobStatusData {
    Queued,
    Running,
    Retrying,
    Succeeded,
    Failed,
    Canceled,
}

/// The stored name of a job state.
pub open spec fn job_status_name(status: IndexedJobStatusData) -> Seq<char> {
    match status {
        IndexedJobStatusData::Queued => "queued"@,
        IndexedJobStatusData::Running => "running"@,
        IndexedJobStatusData::Retrying => "retrying"@,
        IndexedJobStatusData::Succeeded => "succeeded"@,
        IndexedJobStatusData::Failed => "failed"@,
        IndexedJobStatusData::Canceled => "canceled"@,
    }
}

impl IndexedJobStatusData {
    /// The stored name of this state.
    pub fn as_str(self) -> (name: &'static str)
        ensures
            name@ == job_status_name(self),
    {
        match self {
            IndexedJobStatusData::Queued => "queued",
            IndexedJobStatusData::Running => "running",
            IndexedJobStatusData::Retrying => "retrying",
            IndexedJobStatusData::Succeeded => "succeeded",
            IndexedJobStatusData::Failed => "failed",
            IndexedJobStatusData::Canceled => "canceled",
        }
    }

    /// The state with the stored name `value`, if there is one.
    pub fn parse(value: &str) -> (status: Option<Self>)
        ensures
            status matches Some(s) ==> job_status_name(s) == value@,
            status is None ==> forall|s: IndexedJobStatusData| job_status_name(s) != value@,
    {
        proof {
            reveal_strlit("queued");
            reveal_strlit("running");
            reveal_strlit("retrying");
            reveal_strlit("succeeded");
            reveal_strlit("failed");
            reveal_strlit("canceled");
        }
        if same_text(value, "queued") {
            Some(IndexedJobStatusData::Queued)
        } else if same_text(value, "running") {
            Some(IndexedJobStatusData::Running)
        } else if same_text(value, "retrying") {
            Some(IndexedJobStatusData::Retrying)
        } else if same_text(value, "succeeded") {
            Some(IndexedJobStatusData::Succeeded)
        } else if same_text(value, "failed") {
            Some(IndexedJobStatusData::Failed)
        } else if same_text(value, "canceled") {
            Some(IndexedJobStatusData::Canceled)
        } else {
            None
        }
    }
}

/// Every job state reads back as itself from its stored name.
pub proof fn lemma_job_status_names_distinct(a: IndexedJobStatusData, b: IndexedJobStatusData)
    ensures
        job_status_name(a) == job_status_name(b) ==> a == b,
{
    reveal_strlit("queued");
    reveal_strlit("running");
    reveal_strlit("retrying");
    reveal_strlit("succeeded");
    reveal_strlit("failed");
    reveal_strlit("canceled");
    if job_status_name(a) == job_status_name(b) {
        assert(job_status_name(a).len() == job_status_name(b).len());
        assert(job_status_name(a)[0] == job_status_name(b)[0]);
        assert(job_status_name(a)[1] == job_status_name(b)[1]);
    }
}

/// A request to list indexed jobs.
#[derive(Debug, Clone, PartialEq, Eq)]
pub struct ListIndexedJobsOptions {
    pub owner_project_id: Option<String>,
    pub statuses: Vec<IndexedJobStatusData>,
    pub limit: u32,
}

/// What forgetting a project reports.
#[derive(Debug, Clone, PartialEq, Eq)]
pub struct ForgetProjectResultData {
    pub api_version: String,
    pub owner_project_id: String,
    pub removed: bool,
}

/// What cleaning a project's cache reports.
#[derive(Debug, Clone, PartialEq, Eq)]
pub struct CacheCleanupResultData {
    pub api_version: String,
    pub owner_project_id: String,
    pub entries_removed: u64,
    pub bytes_removed: u64,
}

} // verus!
