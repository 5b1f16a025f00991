use vstd::prelude::*;
use vstd::utf8::encode_utf8;

use crate::digest::{receipt_id_for, stable_captions_receipt_id};
use crate::media_error::{plain_media_error, MediaErrorCode, MediaOperation, MediaServiceError};
use crate::media_fingerprint::{captions_request_fingerprint, captions_request_text};
use crate::media_receipts::{check_receipt_binding, receipt_conflict, MediaReceiptFields};
use crate::media_requests::{
    captions_request_refusal, opt_text, validate_captions_options, ImportCaptionsOptions,
};
use crate::hash_text::lemma_hash_text_splits_after_prefix;
use crate::media_rules::{byte_slice, source_hash_refusal, stable_media_id, validate_expected_source_hash};
use crate::storage_error::opt_view;
use crate::text::same_text;
use crate::timeline_request::canonical_hash_spec;

verus! {

/// Where a caption import stands: the outside work it waits for.
#[derive(Debug, Clone, Copy, PartialEq, Eq, Structural)]
pub enum CaptionsImportStage {
    AwaitProject,
    AwaitSource,
    AwaitReceipt,
    AwaitApproval,
    AwaitAudioDocument,
    AwaitRawImport,
    AwaitDocument,
    AwaitReceiptCommit,
    Done,
}

/// The outside work a caption import asks for next.
#[derive(Debug, Clone, Copy, PartialEq, Eq, Structural)]
pub enum CaptionsImportAction {
    /// Open the project at the request's path.
    OpenProject,
    /// Parse the SRT source within the request's limits and audio duration.
    ParseSource,
    /// Load the receipt stored under the state's receipt identifier.
    LoadReceipt,
    /// The stored receipt answers this request: replay it.
    ReplayReceipt,
    /// Have the workflow approve the frozen script and audio inputs.
    ApproveInputs,
    /// Read the approved script and audio documents back from storage.
    ReadInputs,
    /// Build the cues and mappings, then import the source as the raw
    /// captions artifact.
    ImportRaw,
    /// Write, store and read back the captions document.
    StoreDocument,
    /// Commit the receipt that binds the key to this import.
    CommitReceipt,
    /// The import is complete: report it.
    Finish,
}

/// What the outside work of a caption import reported.
#[derive(Debug, Clone, PartialEq, Eq)]
pub enum CaptionsImportEvent {
    ProjectOpened { project_id: String },
    SourceParsed { content_hash: String, byte_length: u64 },
    ReceiptLoaded { receipt: Option<MediaReceiptFields> },
    InputsApproved { artifact_ids: Vec<Option<String>> },
    /// What the approved audio document declares, each field where it has
    /// the expected type.
    AudioDocumentRead {
        document_type: Option<String>,
        project_id: Option<String>,
        run_id: Option<String>,
        duration_ms: Option<u64>,
    },
    RawImported { artifact_id: String, content_hash: Option<String>, byte_length: Option<u64> },
    DocumentStored { artifact_id: String, content_hash: String, persisted_matches: bool },
    ReceiptCommitted { created: bool },
}

/// A caption import in progress: the request and what the outside work has
/// reported so far. The fingerprint is fixed once the source is parsed.
#[derive(Debug, Clone, PartialEq, Eq)]
pub struct CaptionsImportState {
    pub stage: CaptionsImportStage,
    pub receipt_committed: bool,
    pub options: ImportCaptionsOptions,
    pub source_file_name: String,
    pub receipt_id: String,
    pub fingerprint: String,
    /// The captions document's identifier, derived from the fingerprint.
    pub captions_id: String,
    pub source_content_hash: String,
    pub source_byte_length: u64,
    pub raw_artifact_id: String,
    pub artifact_id: String,
    pub content_hash: String,
}

/// The request-fixed fields of two states agree.
pub open spec fn same_captions_request(a: CaptionsImportState, b: CaptionsImportState) -> bool {
    &&& a.options == b.options
    &&& a.source_file_name@ == b.source_file_name@
    &&& a.receipt_id@ == b.receipt_id@
}

/// The parsed source and its fingerprint agree in two states.
pub open spec fn same_parse(a: CaptionsImportState, b: CaptionsImportState) -> bool {
    &&& a.fingerprint@ == b.fingerprint@
    &&& a.captions_id@ == b.captions_id@
    &&& a.source_content_hash@ == b.source_content_hash@
    &&& a.source_byte_length == b.source_byte_length
}

/// The committed artifacts of two states agree.
pub open spec fn same_captions_artifacts(a: CaptionsImportState, b: CaptionsImportState) -> bool {
    &&& a.raw_artifact_id@ == b.raw_artifact_id@
    &&& a.artifact_id@ == b.artifact_id@
    &&& a.content_hash@ == b.content_hash@
}

/// The event is the report of the work the stage waits for.
pub open spec fn captions_awaited(stage: CaptionsImportStage, event: CaptionsImportEvent) -> bool {
    match (stage, event) {
        (CaptionsImportStage::AwaitProject, CaptionsImportEvent::ProjectOpened { .. }) => true,
        (CaptionsImportStage::AwaitSource, CaptionsImportEvent::SourceParsed { .. }) => true,
        (CaptionsImportStage::AwaitReceipt, CaptionsImportEvent::ReceiptLoaded { .. }) => true,
        (CaptionsImportStage::AwaitApproval, CaptionsImportEvent::InputsApproved { .. }) => true,
        (CaptionsImportStage::AwaitAudioDocument, CaptionsImportEvent::AudioDocumentRead { .. }) => true,
        (CaptionsImportStage::AwaitRawImport, CaptionsImportEvent::RawImported { .. }) => true,
        (CaptionsImportStage::AwaitDocument, CaptionsImportEvent::DocumentStored { .. }) => true,
        (CaptionsImportStage::AwaitReceiptCommit, CaptionsImportEvent::ReceiptCommitted { .. }) => true,
        _ => false,
    }
}

/// Why the import stops at this event, with the error's code and message.
pub open spec fn captions_step_refusal(state: CaptionsImportState, event: CaptionsImportEvent) -> Option<
    (MediaErrorCode, Seq<char>),
> {
    let options = state.options;
    match event {
        CaptionsImportEvent::ProjectOpened { project_id } => if project_id@
            != options.expected_project_id@ {
            Some(
                (
                    MediaErrorCode::CrossProjectReference,
                    "媒体请求声明的项目身份与实际项目不一致。"@,
                ),
            )
        } else {
            None
        },
        CaptionsImportEvent::SourceParsed { content_hash, .. } => source_hash_refusal(
            opt_view(options.expected_source_content_hash),
            content_hash@,
        ),
        CaptionsImportEvent::ReceiptLoaded { receipt } => match receipt {
            None => if state.receipt_committed {
                Some((MediaErrorCode::IdempotencyConflict, "Captions receipt 并发提交后无法重放。"@))
            } else {
                None
            },
            Some(stored) => match receipt_conflict(
                stored,
                MediaOperation::ImportCaptions,
                options.run_id@,
                Seq::empty(),
                Seq::empty(),
                state.fingerprint@,
            ) {
                Some(message) => Some((MediaErrorCode::IdempotencyConflict, message)),
                None => None,
            },
        },
        CaptionsImportEvent::InputsApproved { artifact_ids } => if !(artifact_ids@.len() == 2
            && opt_view(artifact_ids@[0]) == Some(options.script_input.artifact_id@) && opt_view(
            artifact_ids@[1],
        ) == Some(options.audio_input.artifact_id@)) {
            Some(
                (
                    MediaErrorCode::InputReferenceMismatch,
                    "批准输入闭包返回了不一致的 Script/Audio Artifact。"@,
                ),
            )
        } else {
            None
        },
        CaptionsImportEvent::AudioDocumentRead { document_type, project_id, run_id, duration_ms } =>
            if !(opt_view(document_type) == Some("audio_media"@) && opt_view(project_id) == Some(
            options.expected_project_id@,
        ) && opt_view(run_id) == Some(options.audio_input.run_id@) && duration_ms == Some(
            options.audio_duration_ms,
        )) {
            Some(
                (
                    MediaErrorCode::InputReferenceMismatch,
                    "批准 AudioMediaDocument 的项目、运行或时长与冻结引用不一致。"@,
                ),
            )
        } else {
            None
        },
        CaptionsImportEvent::RawImported { content_hash, byte_length, .. } => if opt_view(
            content_hash,
        ) != Some(state.source_content_hash@) || byte_length != Some(state.source_byte_length) {
            Some((MediaErrorCode::SourceChanged, "字幕源在解析与不可变导入之间发生变化。"@))
        } else {
            None
        },
        CaptionsImportEvent::DocumentStored { persisted_matches, .. } => if !persisted_matches {
            Some(
                (
                    MediaErrorCode::ArtifactVerificationFailed,
                    "持久化 Captions 文档与写入前文档不一致。"@,
                ),
            )
        } else {
            None
        },
        CaptionsImportEvent::ReceiptCommitted { .. } => None,
    }
}

/// How an accepted event moves the import on.
pub open spec fn captions_step_taken(
    state: CaptionsImportState,
    event: CaptionsImportEvent,
    next: CaptionsImportState,
    action: CaptionsImportAction,
) -> bool {
    &&& same_captions_request(state, next)
    &&& match event {
        CaptionsImportEvent::ProjectOpened { .. } => {
            &&& next.stage == CaptionsImportStage::AwaitSource
            &&& action == CaptionsImportAction::ParseSource
            &&& next.receipt_committed == state.receipt_committed
            &&& same_parse(state, next)
            &&& same_captions_artifacts(state, next)
        },
        CaptionsImportEvent::SourceParsed { content_hash, byte_length } => {
            &&& next.stage == CaptionsImportStage::AwaitReceipt
            &&& action == CaptionsImportAction::LoadReceipt
            &&& next.receipt_committed == state.receipt_committed
            &&& next.source_content_hash@ == content_hash@
            &&& next.source_byte_length == byte_length
            &&& next.fingerprint@ == canonical_hash_spec(
                encode_utf8(
                    captions_request_text(state.options, state.source_file_name@, content_hash@),
                ),
            )
            &&& next.captions_id@ == "captions"@ + "_"@ + byte_slice(
                next.fingerprint@,
                7,
                encode_utf8(next.fingerprint@).len() as int,
            )
            &&& same_captions_artifacts(state, next)
        },
        CaptionsImportEvent::ReceiptLoaded { receipt } => {
            &&& next.receipt_committed == state.receipt_committed
            &&& same_parse(state, next)
            &&& same_captions_artifacts(state, next)
            &&& if receipt is Some {
                next.stage == CaptionsImportStage::Done && action
                    == CaptionsImportAction::ReplayReceipt
            } else {
                next.stage == CaptionsImportStage::AwaitApproval && action
                    == CaptionsImportAction::ApproveInputs
            }
        },
        CaptionsImportEvent::InputsApproved { .. } => {
            &&& next.stage == CaptionsImportStage::AwaitAudioDocument
            &&& action == CaptionsImportAction::ReadInputs
            &&& next.receipt_committed == state.receipt_committed
            &&& same_parse(state, next)
            &&& same_captions_artifacts(state, next)
        },
        CaptionsImportEvent::AudioDocumentRead { .. } => {
            &&& next.stage == CaptionsImportStage::AwaitRawImport
            &&& action == CaptionsImportAction::ImportRaw
            &&& next.receipt_committed == state.receipt_committed
            &&& same_parse(state, next)
            &&& same_captions_artifacts(state, next)
        },
        CaptionsImportEvent::RawImported { artifact_id, .. } => {
            &&& next.stage == CaptionsImportStage::AwaitDocument
            &&& action == CaptionsImportAction::StoreDocument
            &&& next.receipt_committed == state.receipt_committed
            &&& same_parse(state, next)
            &&& next.raw_artifact_id@ == artifact_id@
            &&& next.artifact_id@ == state.artifact_id@
            &&& next.content_hash@ == state.content_hash@
        },
        CaptionsImportEvent::DocumentStored { artifact_id, content_hash, .. } => {
            &&& next.stage == CaptionsImportStage::AwaitReceiptCommit
            &&& action == CaptionsImportAction::CommitReceipt
            &&& next.receipt_committed == state.receipt_committed
            &&& same_parse(state, next)
            &&& next.raw_artifact_id@ == state.raw_artifact_id@
            &&& next.artifact_id@ == artifact_id@
            &&& next.content_hash@ == content_hash@
        },
        CaptionsImportEvent::ReceiptCommitted { created } => {
            &&& same_parse(state, next)
            &&& same_captions_artifacts(state, next)
            &&& if created {
                next.stage == CaptionsImportStage::Done && action == CaptionsImportAction::Finish
                    && next.receipt_committed == state.receipt_committed
            } else {
                next.stage == CaptionsImportStage::AwaitReceipt && action
                    == CaptionsImportAction::LoadReceipt && next.receipt_committed
            }
        },
    }
}

/// Starts a caption import: checks the request (see
/// [`validate_captions_options`]) and fixes its receipt; the first work is
/// opening the project.
pub fn start_captions_import(
    options: ImportCaptionsOptions,
    source_is_absolute: bool,
    file_name: Option<&str>,
) -> (result: Result<(CaptionsImportState, CaptionsImportAction), MediaServiceError>)
    ensures
        match captions_request_refusal(options, source_is_absolute, opt_text(file_name)) {
            Some((code, message)) => result matches Err(error) && plain_media_error(
                error,
                code,
                MediaOperation::ImportCaptions,
                message,
            ),
            None => result matches Ok((state, action)) && {
                &&& file_name matches Some(given) && state.source_file_name@ == given@
                &&& state.stage == CaptionsImportStage::AwaitProject
                &&& action == CaptionsImportAction::OpenProject
                &&& !state.receipt_committed
                &&& state.options == options
                &&& state.receipt_id@ == receipt_id_for(
                    options.expected_project_id@,
                    "import_captions"@,
                    options.idempotency_key@,
                )
            },
        },
{
    let source_file_name = validate_captions_options(&options, source_is_absolute, file_name)?;
    let receipt_id = stable_captions_receipt_id(
        options.expected_project_id.as_str(),
        options.idempotency_key.as_str(),
    );
    let state = CaptionsImportState {
        stage: CaptionsImportStage::AwaitProject,
        receipt_committed: false,
        options,
        source_file_name,
        receipt_id,
        fingerprint: String::new(),
        captions_id: String::new(),
        source_content_hash: String::new(),
        source_byte_length: 0,
        raw_artifact_id: String::new(),
        artifact_id: String::new(),
        content_hash: String::new(),
    };
    Ok((state, CaptionsImportAction::OpenProject))
}

fn optional_is(value: &Option<String>, expected: &str) -> (result: bool)
    ensures
        result == (opt_view(*value) == Some(expected@)),
{
    match value {
        Some(text) => same_text(text.as_str(), expected),
        None => false,
    }
}

/// Takes the report of the outside work the import waited for and decides:
/// the import stops with an error (see [`captions_step_refusal`]) or moves on
/// (see [`captions_step_taken`]).
#[verifier::rlimit(80)]
#[verifier::spinoff_prover]
pub fn captions_import_step(state: CaptionsImportState, event: CaptionsImportEvent) -> (result: Result<
    (CaptionsImportState, CaptionsImportAction),
    MediaServiceError,
>)
    requires
        captions_awaited(state.stage, event),
    ensures
        match captions_step_refusal(state, event) {
            Some((code, message)) => result matches Err(error) && plain_media_error(
                error,
                code,
                MediaOperation::ImportCaptions,
                message,
            ),
            None => result matches Ok((next, action)) && captions_step_taken(
                state,
                event,
                next,
                action,
            ),
        },
{
    proof {
        reveal_strlit("audio_media");
    }
    let operation = MediaOperation::ImportCaptions;
    let mut next = state;
    match event {
        CaptionsImportEvent::ProjectOpened { project_id } => {
            if !same_text(project_id.as_str(), next.options.expected_project_id.as_str()) {
                return Err(
                    MediaServiceError::new(
                        MediaErrorCode::CrossProjectReference,
                        operation,
                        "媒体请求声明的项目身份与实际项目不一致。",
                    ),
                );
            }
            next.stage = CaptionsImportStage::AwaitSource;
            Ok((next, CaptionsImportAction::ParseSource))
        },
        CaptionsImportEvent::SourceParsed { content_hash, byte_length } => {
            let expected = match &next.options.expected_source_content_hash {
                Some(hash) => Some(hash.as_str()),
                None => None,
            };
            validate_expected_source_hash(expected, content_hash.as_str(), operation)?;
            next.fingerprint = captions_request_fingerprint(
                &next.options,
                next.source_file_name.as_str(),
                content_hash.as_str(),
            );
            proof {
                lemma_hash_text_splits_after_prefix(
                    encode_utf8(
                        captions_request_text(next.options, next.source_file_name@, content_hash@),
                    ),
                );
            }
            next.captions_id = stable_media_id("captions", next.fingerprint.as_str());
            next.source_content_hash = content_hash;
            next.source_byte_length = byte_length;
            next.stage = CaptionsImportStage::AwaitReceipt;
            Ok((next, CaptionsImportAction::LoadReceipt))
        },
        CaptionsImportEvent::ReceiptLoaded { receipt } => match receipt {
            None => {
                if next.receipt_committed {
                    return Err(
                        MediaServiceError::new(
                            MediaErrorCode::IdempotencyConflict,
                            operation,
                            "Captions receipt 并发提交后无法重放。",
                        ),
                    );
                }
                next.stage = CaptionsImportStage::AwaitApproval;
                Ok((next, CaptionsImportAction::ApproveInputs))
            },
            Some(stored) => {
                check_receipt_binding(
                    &stored,
                    operation,
                    next.options.run_id.as_str(),
                    "",
                    "",
                    next.fingerprint.as_str(),
                )?;
                next.stage = CaptionsImportStage::Done;
                Ok((next, CaptionsImportAction::ReplayReceipt))
            },
        },
        CaptionsImportEvent::InputsApproved { artifact_ids } => {
            if !(artifact_ids.len() == 2 && optional_is(
                &artifact_ids[0],
                next.options.script_input.artifact_id.as_str(),
            ) && optional_is(&artifact_ids[1], next.options.audio_input.artifact_id.as_str())) {
                return Err(
                    MediaServiceError::new(
                        MediaErrorCode::InputReferenceMismatch,
                        operation,
                        "批准输入闭包返回了不一致的 Script/Audio Artifact。",
                    ),
                );
            }
            next.stage = CaptionsImportStage::AwaitAudioDocument;
            Ok((next, CaptionsImportAction::ReadInputs))
        },
        CaptionsImportEvent::AudioDocumentRead { document_type, project_id, run_id, duration_ms } => {
            let same_duration = match duration_ms {
                Some(duration) => duration == next.options.audio_duration_ms,
                None => false,
            };
            if !(optional_is(&document_type, "audio_media") && optional_is(
                &project_id,
                next.options.expected_project_id.as_str(),
            ) && optional_is(&run_id, next.options.audio_input.run_id.as_str()) && same_duration) {
                return Err(
                    MediaServiceError::new(
                        MediaErrorCode::InputReferenceMismatch,
                        operation,
                        "批准 AudioMediaDocument 的项目、运行或时长与冻结引用不一致。",
                    ),
                );
            }
            next.stage = CaptionsImportStage::AwaitRawImport;
            Ok((next, CaptionsImportAction::ImportRaw))
        },
        CaptionsImportEvent::RawImported { artifact_id, content_hash, byte_length } => {
            let same_length = match byte_length {
                Some(length) => length == next.source_byte_length,
                None => false,
            };
            if !optional_is(&content_hash, next.source_content_hash.as_str()) || !same_length {
                return Err(
                    MediaServiceError::new(
                        MediaErrorCode::SourceChanged,
                        operation,
                        "字幕源在解析与不可变导入之间发生变化。",
                    ),
                );
            }
            next.raw_artifact_id = artifact_id;
            next.stage = CaptionsImportStage::AwaitDocument;
            Ok((next, CaptionsImportAction::StoreDocument))
        },
        CaptionsImportEvent::DocumentStored { artifact_id, content_hash, persisted_matches } => {
            if !persisted_matches {
                return Err(
                    MediaServiceError::new(
                        MediaErrorCode::ArtifactVerificationFailed,
                        operation,
                        "持久化 Captions 文档与写入前文档不一致。",
                    ),
                );
            }
            next.artifact_id = artifact_id;
            next.content_hash = content_hash;
            next.stage = CaptionsImportStage::AwaitReceiptCommit;
            Ok((next, CaptionsImportAction::CommitReceipt))
        },
        CaptionsImportEvent::ReceiptCommitted { created } => {
            if created {
                next.stage = CaptionsImportStage::Done;
                Ok((next, CaptionsImportAction::Finish))
            } else {
                next.receipt_committed = true;
                next.stage = CaptionsImportStage::AwaitReceipt;
                Ok((next, CaptionsImportAction::LoadReceipt))
            }
        },
    }
}

} // verus!
