use vstd::prelude::*;

use crate::storage_error::opt_view;

verus! {

/// The renderer command that reported a failure.
#[derive(Debug, Clone, Copy, PartialEq, Eq, Structural)]
pub enum RendererOperation {
    ProbeRenderer,
    CreateSceneSnapshot,
    EnqueueSceneRender,
    EnqueueTimelineRender,
    ExecuteRender,
    CommitRender,
    GetRenderResult,
}

/// The wire name of each renderer operation.
pub open spec fn renderer_operation_name(operation: RendererOperation) -> Seq<char> {
    match operation {
        RendererOperation::ProbeRenderer => "probe_renderer"@,
        RendererOperation::CreateSceneSnapshot => "create_scene_snapshot"@,
        RendererOperation::EnqueueSceneRender => "enqueue_scene_render"@,
        RendererOperation::EnqueueTimelineRender => "enqueue_timeline_render"@,
        RendererOperation::ExecuteRender => "execute_render"@,
        RendererOperation::CommitRender => "commit_render"@,
        RendererOperation::GetRenderResult => "get_render_result"@,
    }
}

impl RendererOperation {
    /// Returns the snake_case wire name of the operation.
    pub fn as_str(self) -> (name: &'static str)
        ensures
            name@ == renderer_operation_name(self),
    {
        match self {
            RendererOperation::ProbeRenderer => "probe_renderer",
            RendererOperation::CreateSceneSnapshot => "create_scene_snapshot",
            RendererOperation::EnqueueSceneRender => "enqueue_scene_render",
            RendererOperation::EnqueueTimelineRender => "enqueue_timeline_render",
            RendererOperation::ExecuteRender => "execute_render",
            RendererOperation::CommitRender => "commit_render",
            RendererOperation::GetRenderResult => "get_render_result",
        }
    }
}

/// Machine-readable failure classes of the renderer service.
#[derive(Debug, Clone, Copy, PartialEq, Eq, Structural)]
pub enum RendererServiceErrorCode {
    InvalidRequest,
    ProjectNotFound,
    ProjectIdentityMismatch,
    ReviewRequired,
    InputStale,
    InputHashMismatch,
    CrossProjectReference,
    TraceabilityIncomplete,
    SceneNotFound,
    SnapshotTooLarge,
    ResourceRejected,
    ResourceLimitExceeded,
    ArtifactNotFound,
    Canceled,
    JobConflict,
    ContractViolation,
    Io,
}

/// The wire name of each renderer error code.
pub open spec fn renderer_error_code_name(code: RendererServiceErrorCode) -> Seq<char> {
    match code {
        RendererServiceErrorCode::InvalidRequest => "invalid_request"@,
        RendererServiceErrorCode::ProjectNotFound => "project_not_found"@,
        RendererServiceErrorCode::ProjectIdentityMismatch => "project_identity_mismatch"@,
        RendererServiceErrorCode::ReviewRequired => "review_required"@,
        RendererServiceErrorCode::InputStale => "input_stale"@,
        RendererServiceErrorCode::InputHashMismatch => "input_hash_mismatch"@,
        RendererServiceErrorCode::CrossProjectReference => "cross_project_reference"@,
        RendererServiceErrorCode::TraceabilityIncomplete => "traceability_incomplete"@,
        RendererServiceErrorCode::SceneNotFound => "scene_not_found"@,
        RendererServiceErrorCode::SnapshotTooLarge => "snapshot_too_large"@,
        RendererServiceErrorCode::ResourceRejected => "resource_rejected"@,
        RendererServiceErrorCode::ResourceLimitExceeded => "resource_limit_exceeded"@,
        RendererServiceErrorCode::ArtifactNotFound => "artifact_not_found"@,
        RendererServiceErrorCode::Canceled => "canceled"@,
        RendererServiceErrorCode::JobConflict => "job_conflict"@,
        RendererServiceErrorCode::ContractViolation => "internal_contract_error"@,
        RendererServiceErrorCode::Io => "io_error"@,
    }
}

impl RendererServiceErrorCode {
    /// Returns the snake_case wire name of the code.
    pub fn as_str(self) -> (name: &'static str)
        ensures
            name@ == renderer_error_code_name(self),
    {
        match self {
            RendererServiceErrorCode::InvalidRequest => "invalid_request",
            RendererServiceErrorCode::ProjectNotFound => "project_not_found",
            RendererServiceErrorCode::ProjectIdentityMismatch => "project_identity_mismatch",
            RendererServiceErrorCode::ReviewRequired => "review_required",
            RendererServiceErrorCode::InputStale => "input_stale",
            RendererServiceErrorCode::InputHashMismatch => "input_hash_mismatch",
            RendererServiceErrorCode::CrossProjectReference => "cross_project_reference",
            RendererServiceErrorCode::TraceabilityIncomplete => "traceability_incomplete",
            RendererServiceErrorCode::SceneNotFound => "scene_not_found",
            RendererServiceErrorCode::SnapshotTooLarge => "snapshot_too_large",
            RendererServiceErrorCode::ResourceRejected => "resource_rejected",
            RendererServiceErrorCode::ResourceLimitExceeded => "resource_limit_exceeded",
            RendererServiceErrorCode::ArtifactNotFound => "artifact_not_found",
            RendererServiceErrorCode::Canceled => "canceled",
            RendererServiceErrorCode::JobConflict => "job_conflict",
            RendererServiceErrorCode::ContractViolation => "internal_contract_error",
            RendererServiceErrorCode::Io => "io_error",
        }
    }
}

/// A renderer failure with its retry hint and optional stage, run and artifact context.
#[derive(Debug, Clone, PartialEq, Eq)]
pub struct RendererServiceError {
    pub code: RendererServiceErrorCode,
    pub operation: RendererOperation,
    pub message: String,
    pub retryable: bool,
    pub stage_id: Option<String>,
    pub run_id: Option<String>,
    pub artifact_id: Option<String>,
}

impl RendererServiceError {
    /// A non-retryable error with the given code, operation and message and no context.
    pub fn new(code: RendererServiceErrorCode, operation: RendererOperation, message: &str) -> (error: Self)
        ensures
            error.code == code,
            error.operation == operation,
            error.message@ == message@,
            !error.retryable,
            error.stage_id is None,
            error.run_id is None,
            error.artifact_id is None,
    {
        RendererServiceError {
            code,
            operation,
            message: message.to_owned(),
            retryable: false,
            stage_id: None,
            run_id: None,
            artifact_id: None,
        }
    }

    /// The same error with the retry hint set to `value`.
    pub fn retryable(self, value: bool) -> (error: Self)
        ensures
            error.code == self.code,
            error.operation == self.operation,
            error.message@ == self.message@,
            error.retryable == value,
            opt_view(error.stage_id) == opt_view(self.stage_id),
            opt_view(error.run_id) == opt_view(self.run_id),
            opt_view(error.artifact_id) == opt_view(self.artifact_id),
    {
        let mut error = self;
        error.retryable = value;
        error
    }

    /// The same error, now naming the run it concerns.
    pub fn for_run(self, value: &str) -> (error: Self)
        ensures
            error.code == self.code,
            error.operation == self.operation,
            error.message@ == self.message@,
            error.retryable == self.retryable,
            opt_view(error.stage_id) == opt_view(self.stage_id),
            opt_view(error.run_id) == Some(value@),
            opt_view(error.artifact_id) == opt_view(self.artifact_id),
    {
        let mut error = self;
        error.run_id = Some(value.to_owned());
        error
    }

    /// The same error, now naming the artifact it concerns.
    pub fn for_artifact(self, value: &str) -> (error: Self)
        ensures
            error.code == self.code,
            error.operation == self.operation,
            error.message@ == self.message@,
            error.retryable == self.retryable,
            opt_view(error.stage_id) == opt_view(self.stage_id),
            opt_view(error.run_id) == opt_view(self.run_id),
            opt_view(error.artifact_id) == Some(value@),
    {
        let mut error = self;
        error.artifact_id = Some(value.to_owned());
        error
    }
}

/// A contract violation reported by the renderer.
pub fn contract_error(operation: RendererOperation, message: &str) -> (error: RendererServiceError)
    ensures
        error.code == RendererServiceErrorCode::ContractViolation,
        error.operation == operation,
        error.message@ == message@,
        !error.retryable,
{
    RendererServiceError::new(RendererServiceErrorCode::ContractViolation, operation, message)
}

/// A retryable I/O failure reported by the renderer.
pub fn io_error(operation: RendererOperation, message: &str) -> (error: RendererServiceError)
    ensures
        error.code == RendererServiceErrorCode::Io,
        error.operation == operation,
        error.message@ == message@,
        error.retryable,
{
    RendererServiceError::new(RendererServiceErrorCode::Io, operation, message).retryable(true)
}

} // verus!
