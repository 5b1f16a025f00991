use vstd::prelude::*;

use std::sync::Arc;

use crate::project_error::{ProjectDescriptorData, ProjectErrorCode, ProjectOperation, ProjectServiceError};
use crate::project_rules::{
    check_trash_target, migration_status, migration_status_matches, require_current_format,
    trash_outcome, trash_outcome_matches, ProjectMigrationStatusData, ProjectTrashResultData, CURRENT_PROJECT_FORMAT_VERSION,
    PROJECT_COMMAND_API_VERSION,
};
use crate::storage_error::opt_view;

verus! {

/// Moves a project directory to the system's trash.
pub trait TrashBackend: Send + Sync {
    /// Whether `moved` is an answer this trash may give when asked to move `path`.
    spec fn trashed(&self, path: &str, moved: &Result<(), String>) -> bool;

    /// Moves `path` to the trash, or says why it could not.
    fn move_to_trash(&self, path: &str) -> (moved: Result<(), String>)
        ensures
            self.trashed(path, &moved),
    ;
}

/// The default most bytes a project copy moves synchronously.
pub const DEFAULT_MAX_SYNCHRONOUS_COPY_BYTES: u64 = 64 * 1024 * 1024;

/// The default most files a project copy moves synchronously.
pub const DEFAULT_MAX_SYNCHRONOUS_COPY_FILES: u64 = 2048;

/// The project service's configuration: its trash and its copy limits.
pub struct ProjectService<B: TrashBackend> {
    pub trash_backend: Arc<B>,
    pub max_synchronous_copy_bytes: u64,
    pub max_synchronous_copy_files: u64,
}

impl<B: TrashBackend> ProjectService<B> {
    /// A project service with the default copy limits.
    pub fn new(trash_backend: Arc<B>) -> (service: Self)
        ensures
            service.max_synchronous_copy_bytes == DEFAULT_MAX_SYNCHRONOUS_COPY_BYTES,
            service.max_synchronous_copy_files == DEFAULT_MAX_SYNCHRONOUS_COPY_FILES,
    {
        let service = ProjectService {
            trash_backend: trash_backend,
            max_synchronous_copy_bytes: DEFAULT_MAX_SYNCHRONOUS_COPY_BYTES,
            max_synchronous_copy_files: DEFAULT_MAX_SYNCHRONOUS_COPY_FILES,
        };
        service
    }

    /// A project service that copies at most `max_synchronous_copy_bytes`
    /// synchronously.
    pub fn with_copy_limit(trash_backend: Arc<B>, max_synchronous_copy_bytes: u64) -> (service: Self)
        ensures
            service.max_synchronous_copy_bytes == max_synchronous_copy_bytes,
            service.max_synchronous_copy_files == DEFAULT_MAX_SYNCHRONOUS_COPY_FILES,
    {
        ProjectService {
            trash_backend: trash_backend,
            max_synchronous_copy_bytes,
            max_synchronous_copy_files: DEFAULT_MAX_SYNCHRONOUS_COPY_FILES,
        }
    }
}

/// What inspecting a project reports: where it is, its format against the
/// current one, and its description when it is current.
#[derive(Debug, Clone, PartialEq, Eq)]
pub struct ProjectInspectionData {
    pub api_version: String,
    pub project_path: String,
    pub marker_path: String,
    pub detected_format_version: u32,
    pub current_format_version: u32,
    pub migration: ProjectMigrationStatusData,
    pub project: Option<ProjectDescriptorData>,
}

impl<B: TrashBackend> ProjectService<B> {
    /// The inspection of a project whose marker declares `format_version`;
    /// `current_project` is its description, read when the format is current.
    pub fn inspect_project(
        &self,
        project_path: &str,
        marker_path: &str,
        format_version: u32,
        current_project: Option<ProjectDescriptorData>,
    ) -> (inspection: ProjectInspectionData)
        ensures
            inspection.api_version@ == PROJECT_COMMAND_API_VERSION@,
            inspection.project_path@ == project_path@,
            inspection.marker_path@ == marker_path@,
            inspection.detected_format_version == format_version,
            inspection.current_format_version == CURRENT_PROJECT_FORMAT_VERSION,
            migration_status_matches(inspection.migration, format_version),
            inspection.project == if format_version == CURRENT_PROJECT_FORMAT_VERSION {
                current_project
            } else {
                None
            },
    {
        let project = if format_version == CURRENT_PROJECT_FORMAT_VERSION {
            current_project
        } else {
            None
        };
        ProjectInspectionData {
            api_version: PROJECT_COMMAND_API_VERSION.to_owned(),
            project_path: project_path.to_owned(),
            marker_path: marker_path.to_owned(),
            detected_format_version: format_version,
            current_format_version: CURRENT_PROJECT_FORMAT_VERSION,
            migration: migration_status(format_version),
            project,
        }
    }

    /// Opens an inspected project: only a current one with a description
    /// opens; one that needs a migration or that a newer release made is
    /// refused at its marker.
    pub fn open_project(&self, inspection: ProjectInspectionData, operation: ProjectOperation) -> (result:
        Result<ProjectDescriptorData, ProjectServiceError>)
        ensures
            result is Ok <==> inspection.migration is Current && inspection.project is Some,
            result matches Ok(project) ==> inspection.project == Some(project),
            result matches Err(error) ==> error.operation == operation && if inspection.migration is Current {
                &&& error.code == ProjectErrorCode::InvalidProject
                &&& error.message@ == "当前格式项目没有可读取的项目描述。"@
                &&& opt_view(error.path) == Some(inspection.project_path@)
            } else {
                &&& opt_view(error.path) == Some(inspection.marker_path@)
                &&& error.code == if inspection.migration is Required {
                    ProjectErrorCode::MigrationRequired
                } else {
                    ProjectErrorCode::UnsupportedNewerVersion
                }
            },
    {
        require_current_format(&inspection.migration, operation, inspection.marker_path.as_str())?;
        match inspection.project {
            Some(project) => Ok(project),
            None => Err(
                ProjectServiceError::new(
                    ProjectErrorCode::InvalidProject,
                    operation,
                    "当前格式项目没有可读取的项目描述。",
                ).at_path(inspection.project_path.as_str()),
            ),
        }
    }

    /// Moves an opened project to the trash once the caller confirmed its
    /// identity; the file system root is never moved. `project_dir` is the
    /// project's canonical directory and `has_parent` whether it has a parent.
    /// A confirmed project is handed to the trash backend as `project_dir`,
    /// and the backend's answer decides the result.
    pub fn move_project_to_trash(
        &self,
        project_dir: &str,
        has_parent: bool,
        project: &ProjectDescriptorData,
        expected_project_id: &str,
    ) -> (result: Result<ProjectTrashResultData, ProjectServiceError>)
        ensures
            !(has_parent && project.project_id@ == expected_project_id@) ==> (result matches Err(
                error,
            ) && error.operation == ProjectOperation::MoveToTrash && opt_view(error.path) == Some(
                project_dir@,
            ) && if !has_parent {
                error.code == ProjectErrorCode::InvalidPath && error.message@
                    == "文件系统根目录不能作为项目移入回收站。"@
            } else {
                error.code == ProjectErrorCode::InvalidRequest && error.message@
                    == "项目身份确认失败，已拒绝移动到回收站。"@
            }),
            result matches Ok(data) ==> has_parent && project.project_id@ == expected_project_id@
                && data.api_version@ == PROJECT_COMMAND_API_VERSION@ && data.project_id@
                == project.project_id@ && data.trashed_path@ == project_dir@,
            has_parent && project.project_id@ == expected_project_id@ ==> exists|
                moved: Result<(), String>,
            |
                #![trigger self.trash_backend.trashed(project_dir, &moved)]
                self.trash_backend.trashed(project_dir, &moved) && trash_outcome_matches(
                    moved,
                    result,
                    project.project_id@,
                    project_dir@,
                    ProjectOperation::MoveToTrash,
                ),
    {
        let operation = ProjectOperation::MoveToTrash;
        check_trash_target(
            has_parent,
            project.project_id.as_str(),
            expected_project_id,
            operation,
            project_dir,
        )?;
        let moved = self.trash_backend.move_to_trash(project_dir);
        trash_outcome(moved, project.project_id.as_str(), project_dir, operation)
    }
}

/// The most bytes of one artifact stored synchronously.
pub const MAX_SYNCHRONOUS_ARTIFACT_BYTES: u64 = 64 * 1024 * 1024;

/// The most artifacts indexed per project.
pub const MAX_INDEXED_ARTIFACTS_PER_PROJECT: usize = 4096;

/// The most artifact metadata bytes one index rebuild reads.
pub const MAX_INDEXED_METADATA_BYTES: u64 = 64 * 1024 * 1024;

/// The most cache entries one cleanup visits.
pub const MAX_CACHE_ENTRIES: usize = 4096;

/// The most cache bytes one cleanup removes.
pub const MAX_CACHE_BYTES: u64 = 256 * 1024 * 1024;

/// The deepest cache directory one cleanup visits.
pub const MAX_CACHE_DEPTH: usize = 64;

/// The storage service's configuration: where its index lives, the project
/// service it opens projects with, and its limits.
pub struct StorageService<B: TrashBackend> {
    pub index_path: String,
    pub project_service: ProjectService<B>,
    pub max_artifact_bytes: u64,
    pub max_indexed_artifacts: usize,
    pub max_indexed_metadata_bytes: u64,
    pub max_cache_entries: usize,
    pub max_cache_bytes: u64,
    pub max_cache_depth: usize,
}

impl<B: TrashBackend> StorageService<B> {
    /// A storage service with its index at `index_path` and the default limits.
    pub fn new(index_path: String, project_service: ProjectService<B>) -> (service: Self)
        ensures
            service.index_path@ == index_path@,
            service.project_service.max_synchronous_copy_bytes
                == project_service.max_synchronous_copy_bytes,
            service.project_service.max_synchronous_copy_files
                == project_service.max_synchronous_copy_files,
            service.max_artifact_bytes == MAX_SYNCHRONOUS_ARTIFACT_BYTES,
            service.max_indexed_artifacts == MAX_INDEXED_ARTIFACTS_PER_PROJECT,
            service.max_indexed_metadata_bytes == MAX_INDEXED_METADATA_BYTES,
            service.max_cache_entries == MAX_CACHE_ENTRIES,
            service.max_cache_bytes == MAX_CACHE_BYTES,
            service.max_cache_depth == MAX_CACHE_DEPTH,
    {
        StorageService {
            index_path,
            project_service,
            max_artifact_bytes: MAX_SYNCHRONOUS_ARTIFACT_BYTES,
            max_indexed_artifacts: MAX_INDEXED_ARTIFACTS_PER_PROJECT,
            max_indexed_metadata_bytes: MAX_INDEXED_METADATA_BYTES,
            max_cache_entries: MAX_CACHE_ENTRIES,
            max_cache_bytes: MAX_CACHE_BYTES,
            max_cache_depth: MAX_CACHE_DEPTH,
        }
    }
}

} // verus!
