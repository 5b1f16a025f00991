use vstd::prelude::*;

verus! {

/// Machine-readable failure classes of the storage service.
#[derive(Debug, Clone, Copy, PartialEq, Eq, Structural)]
pub enum StorageErrorCode {
    InvalidRequest,
    InvalidPath,
    PathContainsSymlink,
    ProjectNotFound,
    ProjectIdentityMismatch,
    InvalidProject,
    MigrationRequired,
    UnsupportedNewerVersion,
    SourceNotFound,
    SourceChanged,
    SourceTooLarge,
    ArtifactTooLarge,
    InvalidArtifact,
    ArtifactNotFound,
    ArtifactConflict,
    ContentCorrupt,
    IndexUnavailable,
    IndexMigrationFailed,
    ScanLimitExceeded,
    CacheCleanupFailed,
    IoError,
    InternalContractError,
}

/// The wire name of each storage error code.
pub open spec fn storage_error_code_name(code: StorageErrorCode) -> Seq<char> {
    match code {
        StorageErrorCode::InvalidRequest => "invalid_request"@,
        StorageErrorCode::InvalidPath => "invalid_path"@,
        StorageErrorCode::PathContainsSymlink => "path_contains_symlink"@,
        StorageErrorCode::ProjectNotFound => "project_not_found"@,
        StorageErrorCode::ProjectIdentityMismatch => "project_identity_mismatch"@,
        StorageErrorCode::InvalidProject => "invalid_project"@,
        StorageErrorCode::MigrationRequired => "migration_required"@,
        StorageErrorCode::UnsupportedNewerVersion => "unsupported_newer_version"@,
        StorageErrorCode::SourceNotFound => "source_not_found"@,
        StorageErrorCode::SourceChanged => "source_changed"@,
        StorageErrorCode::SourceTooLarge => "source_too_large"@,
        StorageErrorCode::ArtifactTooLarge => "artifact_too_large"@,
        StorageErrorCode::InvalidArtifact => "invalid_artifact"@,
        StorageErrorCode::ArtifactNotFound => "artifact_not_found"@,
        StorageErrorCode::ArtifactConflict => "artifact_conflict"@,
        StorageErrorCode::ContentCorrupt => "content_corrupt"@,
        StorageErrorCode::IndexUnavailable => "index_unavailable"@,
        StorageErrorCode::IndexMigrationFailed => "index_migration_failed"@,
        StorageErrorCode::ScanLimitExceeded => "scan_limit_exceeded"@,
        StorageErrorCode::CacheCleanupFailed => "cache_cleanup_failed"@,
        StorageErrorCode::IoError => "io_error"@,
        StorageErrorCode::InternalContractError => "internal_contract_error"@,
    }
}

impl StorageErrorCode {
    /// Returns the snake_case wire name of the code.
    pub fn as_str(self) -> (name: &'static str)
        ensures
            name@ == storage_error_code_name(self),
    {
        match self {
            StorageErrorCode::InvalidRequest => "invalid_request",
            StorageErrorCode::InvalidPath => "invalid_path",
            StorageErrorCode::PathContainsSymlink => "path_contains_symlink",
            StorageErrorCode::ProjectNotFound => "project_not_found",
            StorageErrorCode::ProjectIdentityMismatch => "project_identity_mismatch",
            StorageErrorCode::InvalidProject => "invalid_project",
            StorageErrorCode::MigrationRequired => "migration_required",
            StorageErrorCode::UnsupportedNewerVersion => "unsupported_newer_version",
            StorageErrorCode::SourceNotFound => "source_not_found",
            StorageErrorCode::SourceChanged => "source_changed",
            StorageErrorCode::SourceTooLarge => "source_too_large",
            StorageErrorCode::ArtifactTooLarge => "artifact_too_large",
            StorageErrorCode::InvalidArtifact => "invalid_artifact",
            StorageErrorCode::ArtifactNotFound => "artifact_not_found",
            StorageErrorCode::ArtifactConflict => "artifact_conflict",
            StorageErrorCode::ContentCorrupt => "content_corrupt",
            StorageErrorCode::IndexUnavailable => "index_unavailable",
            StorageErrorCode::IndexMigrationFailed => "index_migration_failed",
            StorageErrorCode::ScanLimitExceeded => "scan_limit_exceeded",
            StorageErrorCode::CacheCleanupFailed => "cache_cleanup_failed",
            StorageErrorCode::IoError => "io_error",
            StorageErrorCode::InternalContractError => "internal_contract_error",
        }
    }
}

} // verus!

verus! {

/// The storage command that reported a failure.
#[derive(Debug, Clone, Copy, PartialEq, Eq, Structural)]
pub enum StorageOperation {
    ImportArtifact,
    GetArtifact,
    VerifyArtifact,
    ManageMediaReceipt,
    ManageMediaSource,
    RebuildProjectIndex,
    ListRecentProjects,
    ListIndexedJobs,
    ForgetProject,
    CleanProjectCache,
}

/// The wire name of each storage operation.
pub open spec fn storage_operation_name(operation: StorageOperation) -> Seq<char> {
    match operation {
        StorageOperation::ImportArtifact => "import_artifact"@,
        StorageOperation::GetArtifact => "get_artifact"@,
        StorageOperation::VerifyArtifact => "verify_artifact"@,
        StorageOperation::ManageMediaReceipt => "manage_media_receipt"@,
        StorageOperation::ManageMediaSource => "manage_media_source"@,
        StorageOperation::RebuildProjectIndex => "rebuild_project_index"@,
        StorageOperation::ListRecentProjects => "list_recent_projects"@,
        StorageOperation::ListIndexedJobs => "list_indexed_jobs"@,
        StorageOperation::ForgetProject => "forget_project"@,
        StorageOperation::CleanProjectCache => "clean_project_cache"@,
    }
}

impl StorageOperation {
    /// Returns the snake_case wire name of the operation.
    pub fn as_str(self) -> (name: &'static str)
        ensures
            name@ == storage_operation_name(self),
    {
        match self {
            StorageOperation::ImportArtifact => "import_artifact",
            StorageOperation::GetArtifact => "get_artifact",
            StorageOperation::VerifyArtifact => "verify_artifact",
            StorageOperation::ManageMediaReceipt => "manage_media_receipt",
            StorageOperation::ManageMediaSource => "manage_media_source",
            StorageOperation::RebuildProjectIndex => "rebuild_project_index",
            StorageOperation::ListRecentProjects => "list_recent_projects",
            StorageOperation::ListIndexedJobs => "list_indexed_jobs",
            StorageOperation::ForgetProject => "forget_project",
            StorageOperation::CleanProjectCache => "clean_project_cache",
        }
    }
}

/// A storage failure: its code, the operation, a human-readable message and
/// the optional path and artifact it concerns.
#[derive(Debug, Clone, PartialEq, Eq)]
pub struct StorageServiceError {
    pub code: StorageErrorCode,
    pub operation: StorageOperation,
    pub message: String,
    pub path: Option<String>,
    pub artifact_id: Option<String>,
}

/// The text of an optional string field, `None` when absent.
pub open spec fn opt_view(value: Option<String>) -> Option<Seq<char>> {
    match value {
        Some(text) => Some(text@),
        None => None,
    }
}

impl StorageServiceError {
    /// An error with the given code, operation and message and no path or artifact.
    pub fn new(code: StorageErrorCode, operation: StorageOperation, message: &str) -> (error: Self)
        ensures
            error.code == code,
            error.operation == operation,
            error.message@ == message@,
            error.path is None,
            error.artifact_id is None,
    {
        StorageServiceError {
            code,
            operation,
            message: message.to_owned(),
            path: None,
            artifact_id: None,
        }
    }

    /// The same error, now naming the path it concerns.
    pub fn at_path(self, path: &str) -> (error: Self)
        ensures
            error.code == self.code,
            error.operation == self.operation,
            error.message@ == self.message@,
            opt_view(error.path) == Some(path@),
            opt_view(error.artifact_id) == opt_view(self.artifact_id),
    {
        let mut error = self;
        error.path = Some(path.to_owned());
        error
    }

    /// The same error, now naming the artifact it concerns.
    pub fn for_artifact(self, artifact_id: &str) -> (error: Self)
        ensures
            error.code == self.code,
            error.operation == self.operation,
            error.message@ == self.message@,
            opt_view(error.path) == opt_view(self.path),
            opt_view(error.artifact_id) == Some(artifact_id@),
    {
        let mut error = self;
        error.artifact_id = Some(artifact_id.to_owned());
        error
    }

    /// An I/O failure at `path`: the message is the context, a full-width colon
    /// and the description of the underlying error.
    pub fn io(operation: StorageOperation, path: &str, context: &str, error: &str) -> (result: Self)
        ensures
            result.code == StorageErrorCode::IoError,
            result.operation == operation,
            result.message@ == context@ + "："@ + error@,
            opt_view(result.path) == Some(path@),
            result.artifact_id is None,
    {
        let mut message = String::from_str(context);
        message.append("：");
        message.append(error);
        StorageServiceError {
            code: StorageErrorCode::IoError,
            operation,
            message,
            path: Some(path.to_owned()),
            artifact_id: None,
        }
    }
}

} // verus!
