use vstd::prelude::*;

use crate::storage_error::opt_view;

verus! {

/// Why a project operation was refused.
#[derive(Debug, Clone, Copy, PartialEq, Eq, Structural)]
pub enum ProjectErrorCode {
    InvalidRequest,
    InvalidName,
    InvalidPath,
    PathContainsSymlink,
    CopyTooLarge,
    ProjectNotFound,
    MarkerMissing,
    MarkerTooLarge,
    InvalidProject,
    MigrationRequired,
    MigrationConflict,
    UnsupportedNewerVersion,
    MigrationFailed,
    DestinationExists,
    IoError,
    TrashFailed,
    InternalContractError,
}

/// The project operation that failed.
#[derive(Debug, Clone, Copy, PartialEq, Eq, Structural)]
pub enum ProjectOperation {
    Copy,
    Create,
    Inspect,
    Migrate,
    MoveToTrash,
    Open,
    Rename,
    SetArchived,
}

/// A refused project operation, with the path and format versions it concerns
/// where they are known.
#[derive(Debug, Clone, PartialEq, Eq)]
pub struct ProjectServiceError {
    pub code: ProjectErrorCode,
    pub operation: ProjectOperation,
    pub message: String,
    pub path: Option<String>,
    pub supported_version: Option<u32>,
    pub detected_version: Option<u32>,
}

impl ProjectServiceError {
    /// An error with the given code, operation and message.
    pub fn new(code: ProjectErrorCode, operation: ProjectOperation, message: &str) -> (error: Self)
        ensures
            error.code == code,
            error.operation == operation,
            error.message@ == message@,
            error.path is None,
            error.supported_version is None,
            error.detected_version is None,
    {
        ProjectServiceError {
            code,
            operation,
            message: message.to_owned(),
            path: None,
            supported_version: None,
            detected_version: None,
        }
    }

    /// The same error, now naming the path it concerns.
    pub fn at_path(self, path: &str) -> (error: Self)
        ensures
            error.code == self.code,
            error.operation == self.operation,
            error.message == self.message,
            opt_view(error.path) == Some(path@),
            error.supported_version == self.supported_version,
            error.detected_version == self.detected_version,
    {
        let mut error = self;
        error.path = Some(path.to_owned());
        error
    }

    /// The same error, now naming the supported and the detected format version.
    pub fn with_versions(self, supported: u32, detected: u32) -> (error: Self)
        ensures
            error.code == self.code,
            error.operation == self.operation,
            error.message == self.message,
            error.path == self.path,
            error.supported_version == Some(supported),
            error.detected_version == Some(detected),
    {
        let mut error = self;
        error.supported_version = Some(supported);
        error.detected_version = Some(detected);
        error
    }

    /// An I/O failure at `path`: the message is the context, a full-width colon
    /// and the description of the underlying error.
    pub fn io(operation: ProjectOperation, path: &str, context: &str, error: &str) -> (result: Self)
        ensures
            result.code == ProjectErrorCode::IoError,
            result.operation == operation,
            result.message@ == context@ + "："@ + error@,
            opt_view(result.path) == Some(path@),
            result.supported_version is None,
            result.detected_version is None,
    {
        let mut message = String::from_str(context);
        message.append("：");
        message.append(error);
        ProjectServiceError {
            code: ProjectErrorCode::IoError,
            operation,
            message,
            path: Some(path.to_owned()),
            supported_version: None,
            detected_version: None,
        }
    }
}

/// What opening a project reports about it.
#[derive(Debug, Clone, PartialEq, Eq)]
pub struct ProjectDescriptorData {
    pub api_version: String,
    pub project_path: String,
    pub marker_path: String,
    pub project_id: String,
    pub name: String,
    pub workflow_definition_id: String,
    pub project_format_version: u32,
    pub default_locale: Option<String>,
    pub archived: bool,
    pub archived_at: Option<String>,
    pub created_at: String,
    pub updated_at: String,
}

} // verus!
