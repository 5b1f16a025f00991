use vstd::prelude::*;

use crate::storage_error::opt_view;

verus! {

/// Machine-readable failure classes of the media service.
#[derive(Debug, Clone, Copy, PartialEq, Eq, Structural)]
pub enum MediaErrorCode {
    InvalidRequest,
    InvalidSourceName,
    InvalidMedia,
    RightsRequired,
    VoiceCloneNotAllowed,
    SourceHashMismatch,
    SourceChanged,
    CrossProjectReference,
    InputNotApproved,
    InputReferenceMismatch,
    ArtifactVerificationFailed,
    IdempotencyConflict,
    ResourceLimitExceeded,
    ContractViolation,
    StorageUnavailable,
    Io,
}

/// The media command that reported a failure.
#[derive(Debug, Clone, Copy, PartialEq, Eq, Structural)]
pub enum MediaOperation {
    ImportAudio,
    ImportCaptions,
    GenerateScenePlan,
    GenerateTimeline,
    SaveScenePlan,
    SaveTimeline,
    ReadMediaDocument,
}

/// A media failure with optional project, stage, run and artifact context that
/// is safe to show to the caller.
#[derive(Debug, Clone, PartialEq, Eq)]
pub struct MediaServiceError {
    pub code: MediaErrorCode,
    pub operation: MediaOperation,
    pub message: String,
    pub project_id: Option<String>,
    pub stage_id: Option<String>,
    pub run_id: Option<String>,
    pub artifact_id: Option<String>,
}

/// `error` carries `code`, `operation` and `message` and no context.
pub open spec fn plain_media_error(
    error: MediaServiceError,
    code: MediaErrorCode,
    operation: MediaOperation,
    message: Seq<char>,
) -> bool {
    &&& error.code == code
    &&& error.operation == operation
    &&& error.message@ == message
    &&& error.project_id is None
    &&& error.stage_id is None
    &&& error.run_id is None
    &&& error.artifact_id is None
}

/// `value` as an owned string option.
fn owned_option(value: Option<&str>) -> (result: Option<String>)
    ensures
        match value {
            Some(text) => opt_view(result) == Some(text@),
            None => result is None,
        },
{
    match value {
        Some(text) => Some(text.to_owned()),
        None => None,
    }
}

impl MediaServiceError {
    /// An error with the given code, operation and message and no context.
    pub fn new(code: MediaErrorCode, operation: MediaOperation, message: &str) -> (error: Self)
        ensures
            error.code == code,
            error.operation == operation,
            error.message@ == message@,
            error.project_id is None,
            error.stage_id is None,
            error.run_id is None,
            error.artifact_id is None,
    {
        MediaServiceError {
            code,
            operation,
            message: message.to_owned(),
            project_id: None,
            stage_id: None,
            run_id: None,
            artifact_id: None,
        }
    }

    /// The same error carrying the given identifiers as its context.
    pub fn with_safe_context(
        self,
        project_id: Option<&str>,
        stage_id: Option<&str>,
        run_id: Option<&str>,
        artifact_id: Option<&str>,
    ) -> (error: Self)
        ensures
            error.code == self.code,
            error.operation == self.operation,
            error.message@ == self.message@,
            match project_id {
                Some(t) => opt_view(error.project_id) == Some(t@),
                None => error.project_id is None,
            },
            match stage_id {
                Some(t) => opt_view(error.stage_id) == Some(t@),
                None => error.stage_id is None,
            },
            match run_id {
                Some(t) => opt_view(error.run_id) == Some(t@),
                None => error.run_id is None,
            },
            match artifact_id {
                Some(t) => opt_view(error.artifact_id) == Some(t@),
                None => error.artifact_id is None,
            },
    {
        let mut error = self;
        error.project_id = owned_option(project_id);
        error.stage_id = owned_option(stage_id);
        error.run_id = owned_option(run_id);
        error.artifact_id = owned_option(artifact_id);
        error
    }
}

} // verus!
