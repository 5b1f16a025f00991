use vstd::prelude::*;
use vstd::utf8::encode_utf8;

use crate::digest::{receipt_id_for, stable_audio_receipt_id};
use crate::media_error::{plain_media_error, MediaErrorCode, MediaOperation, MediaServiceError};
use crate::media_fingerprint::{audio_request_fingerprint, audio_request_text};
use crate::media_receipts::{check_receipt_binding, receipt_conflict, MediaReceiptFields};
use crate::media_requests::{audio_request_refusal, opt_text, validate_audio_options, ImportAudioOptions};
use crate::hash_text::lemma_hash_text_splits_after_prefix;
use crate::media_rules::{byte_slice, source_hash_refusal, stable_media_id, validate_expected_source_hash};
use crate::storage_error::opt_view;
use crate::text::same_text;
use crate::timeline_request::canonical_hash_spec;

verus! {

/// Where an audio import stands: the outside work it waits for.
#[derive(Debug, Clone, Copy, PartialEq, Eq, Structural)]
pub enum AudioImportStage {
    AwaitProject,
    AwaitReceipt,
    AwaitSource,
    AwaitApproval,
    AwaitScriptRead,
    AwaitRawImport,
    AwaitDocument,
    AwaitReceiptCommit,
    Done,
}

/// The outside work an audio import asks for next.
#[derive(Debug, Clone, Copy, PartialEq, Eq, Structural)]
pub enum AudioImportAction {
    /// Open the project at the request's path.
    OpenProject,
    /// Load the receipt stored under the state's receipt identifier.
    LoadReceipt,
    /// The stored receipt answers this request: replay it.
    ReplayReceipt,
    /// Parse the PCM WAV source within the request's limit.
    ParseSource,
    /// Have the workflow approve the frozen script input.
    ApproveInputs,
    /// Read the approved script's content back from storage.
    ReadScript,
    /// Import the source file as the raw audio artifact.
    ImportRaw,
    /// Write, store and read back the audio document.
    StoreDocument,
    /// Commit the receipt that binds the key to this import.
    CommitReceipt,
    /// The import is complete: report it.
    Finish,
}

/// What the outside work of an audio import reported.
#[derive(Debug, Clone, PartialEq, Eq)]
pub enum AudioImportEvent {
    ProjectOpened { project_id: String },
    ReceiptLoaded { receipt: Option<MediaReceiptFields> },
    SourceParsed { content_hash: String, byte_length: u64 },
    InputsApproved { artifact_ids: Vec<Option<String>> },
    ScriptRead,
    RawImported { artifact_id: String, content_hash: Option<String>, byte_length: Option<u64> },
    DocumentStored { artifact_id: String, content_hash: String, persisted_matches: bool },
    ReceiptCommitted { created: bool },
}

/// An audio import in progress: what the request fixed and what the outside
/// work has reported so far.
#[derive(Debug, Clone, PartialEq, Eq)]
pub struct AudioImportState {
    pub stage: AudioImportStage,
    pub receipt_committed: bool,
    pub expected_project_id: String,
    pub run_id: String,
    pub script_artifact_id: String,
    pub expected_source_content_hash: Option<String>,
    pub source_file_name: String,
    pub fingerprint: String,
    /// The audio document's media identifier, derived from the fingerprint.
    pub media_id: String,
    pub receipt_id: String,
    pub source_content_hash: String,
    pub source_byte_length: u64,
    pub raw_artifact_id: String,
    pub artifact_id: String,
    pub content_hash: String,
}

/// The request-fixed fields of two states agree.
pub open spec fn same_request(a: AudioImportState, b: AudioImportState) -> bool {
    &&& a.expected_project_id@ == b.expected_project_id@
    &&& a.run_id@ == b.run_id@
    &&& a.script_artifact_id@ == b.script_artifact_id@
    &&& opt_view(a.expected_source_content_hash) == opt_view(b.expected_source_content_hash)
    &&& a.source_file_name@ == b.source_file_name@
    &&& a.fingerprint@ == b.fingerprint@
    &&& a.media_id@ == b.media_id@
    &&& a.receipt_id@ == b.receipt_id@
}

/// The parsed source facts of two states agree.
pub open spec fn same_source(a: AudioImportState, b: AudioImportState) -> bool {
    a.source_content_hash@ == b.source_content_hash@ && a.source_byte_length == b.source_byte_length
}

/// The committed artifacts of two states agree.
pub open spec fn same_artifacts(a: AudioImportState, b: AudioImportState) -> bool {
    &&& a.raw_artifact_id@ == b.raw_artifact_id@
    &&& a.artifact_id@ == b.artifact_id@
    &&& a.content_hash@ == b.content_hash@
}

/// The event is the report of the work the stage waits for.
pub open spec fn awaited(stage: AudioImportStage, event: AudioImportEvent) -> bool {
    match (stage, event) {
        (AudioImportStage::AwaitProject, AudioImportEvent::ProjectOpened { .. }) => true,
        (AudioImportStage::AwaitReceipt, AudioImportEvent::ReceiptLoaded { .. }) => true,
        (AudioImportStage::AwaitSource, AudioImportEvent::SourceParsed { .. }) => true,
        (AudioImportStage::AwaitApproval, AudioImportEvent::InputsApproved { .. }) => true,
        (AudioImportStage::AwaitScriptRead, AudioImportEvent::ScriptRead) => true,
        (AudioImportStage::AwaitRawImport, AudioImportEvent::RawImported { .. }) => true,
        (AudioImportStage::AwaitDocument, AudioImportEvent::DocumentStored { .. }) => true,
        (AudioImportStage::AwaitReceiptCommit, AudioImportEvent::ReceiptCommitted { .. }) => true,
        _ => false,
    }
}

/// Why the import stops at this event, with the error's code and message: a
/// project of another identity; a receipt bound to another request, or none
/// to replay after a concurrent commit; a source hash that is malformed or not
/// the frozen one; an approval of other inputs; a raw artifact whose bytes are
/// not the parsed ones; a document that did not read back as written.
pub open spec fn audio_step_refusal(state: AudioImportState, event: AudioImportEvent) -> Option<
    (MediaErrorCode, Seq<char>),
> {
    match event {
        AudioImportEvent::ProjectOpened { project_id } => if project_id@
            != state.expected_project_id@ {
            Some(
                (
                    MediaErrorCode::CrossProjectReference,
                    "媒体请求声明的项目身份与实际项目不一致。"@,
                ),
            )
        } else {
            None
        },
        AudioImportEvent::ReceiptLoaded { receipt } => match receipt {
            None => if state.receipt_committed {
                Some((MediaErrorCode::IdempotencyConflict, "Audio receipt 并发提交后无法重放。"@))
            } else {
                None
            },
            Some(stored) => match receipt_conflict(
                stored,
                MediaOperation::ImportAudio,
                state.run_id@,
                Seq::empty(),
                Seq::empty(),
                state.fingerprint@,
            ) {
                Some(message) => Some((MediaErrorCode::IdempotencyConflict, message)),
                None => None,
            },
        },
        AudioImportEvent::SourceParsed { content_hash, .. } => source_hash_refusal(
            opt_view(state.expected_source_content_hash),
            content_hash@,
        ),
        AudioImportEvent::InputsApproved { artifact_ids } => if !(artifact_ids@.len() == 1
            && opt_view(artifact_ids@[0]) == Some(state.script_artifact_id@)) {
            Some(
                (
                    MediaErrorCode::InputReferenceMismatch,
                    "批准输入闭包返回了不一致的 Script Artifact。"@,
                ),
            )
        } else {
            None
        },
        AudioImportEvent::ScriptRead => None,
        AudioImportEvent::RawImported { content_hash, byte_length, .. } => if opt_view(content_hash)
            != Some(state.source_content_hash@) || byte_length != Some(state.source_byte_length) {
            Some((MediaErrorCode::SourceChanged, "媒体源在解析与不可变导入之间发生变化。"@))
        } else {
            None
        },
        AudioImportEvent::DocumentStored { persisted_matches, .. } => if !persisted_matches {
            Some(
                (
                    MediaErrorCode::ArtifactVerificationFailed,
                    "持久化 Audio 文档与写入前文档不一致。"@,
                ),
            )
        } else {
            None
        },
        AudioImportEvent::ReceiptCommitted { .. } => None,
    }
}

/// How an accepted event moves the import on: the next stage, what it
/// records, and the work it asks for.
pub open spec fn audio_step_taken(
    state: AudioImportState,
    event: AudioImportEvent,
    next: AudioImportState,
    action: AudioImportAction,
) -> bool {
    &&& same_request(state, next)
    &&& match event {
        AudioImportEvent::ProjectOpened { .. } => {
            &&& next.stage == AudioImportStage::AwaitReceipt
            &&& action == AudioImportAction::LoadReceipt
            &&& next.receipt_committed == state.receipt_committed
            &&& same_source(state, next)
            &&& same_artifacts(state, next)
        },
        AudioImportEvent::ReceiptLoaded { receipt } => {
            &&& next.receipt_committed == state.receipt_committed
            &&& same_source(state, next)
            &&& same_artifacts(state, next)
            &&& if receipt is Some {
                next.stage == AudioImportStage::Done && action == AudioImportAction::ReplayReceipt
            } else {
                next.stage == AudioImportStage::AwaitSource && action
                    == AudioImportAction::ParseSource
            }
        },
        AudioImportEvent::SourceParsed { content_hash, byte_length } => {
            &&& next.stage == AudioImportStage::AwaitApproval
            &&& action == AudioImportAction::ApproveInputs
            &&& next.receipt_committed == state.receipt_committed
            &&& next.source_content_hash@ == content_hash@
            &&& next.source_byte_length == byte_length
            &&& same_artifacts(state, next)
        },
        AudioImportEvent::InputsApproved { .. } => {
            &&& next.stage == AudioImportStage::AwaitScriptRead
            &&& action == AudioImportAction::ReadScript
            &&& next.receipt_committed == state.receipt_committed
            &&& same_source(state, next)
            &&& same_artifacts(state, next)
        },
        AudioImportEvent::ScriptRead => {
            &&& next.stage == AudioImportStage::AwaitRawImport
            &&& action == AudioImportAction::ImportRaw
            &&& next.receipt_committed == state.receipt_committed
            &&& same_source(state, next)
            &&& same_artifacts(state, next)
        },
        AudioImportEvent::RawImported { artifact_id, .. } => {
            &&& next.stage == AudioImportStage::AwaitDocument
            &&& action == AudioImportAction::StoreDocument
            &&& next.receipt_committed == state.receipt_committed
            &&& same_source(state, next)
            &&& next.raw_artifact_id@ == artifact_id@
            &&& next.artifact_id@ == state.artifact_id@
            &&& next.content_hash@ == state.content_hash@
        },
        AudioImportEvent::DocumentStored { artifact_id, content_hash, .. } => {
            &&& next.stage == AudioImportStage::AwaitReceiptCommit
            &&& action == AudioImportAction::CommitReceipt
            &&& next.receipt_committed == state.receipt_committed
            &&& same_source(state, next)
            &&& next.raw_artifact_id@ == state.raw_artifact_id@
            &&& next.artifact_id@ == artifact_id@
            &&& next.content_hash@ == content_hash@
        },
        AudioImportEvent::ReceiptCommitted { created } => {
            &&& same_source(state, next)
            &&& same_artifacts(state, next)
            &&& if created {
                next.stage == AudioImportStage::Done && action == AudioImportAction::Finish
                    && next.receipt_committed == state.receipt_committed
            } else {
                next.stage == AudioImportStage::AwaitReceipt && action
                    == AudioImportAction::LoadReceipt && next.receipt_committed
            }
        },
    }
}

/// What starting an import fixes: the first stage, no receipt committed yet,
/// the request's identity and frozen script, its fingerprint, the media
/// identifier derived from it, and its receipt.
pub open spec fn audio_import_started(
    options: ImportAudioOptions,
    source_file_name: Seq<char>,
    state: AudioImportState,
) -> bool {
    &&& state.stage == AudioImportStage::AwaitProject
    &&& !state.receipt_committed
    &&& state.source_file_name@ == source_file_name
    &&& state.expected_project_id@ == options.expected_project_id@
    &&& state.run_id@ == options.run_id@
    &&& state.script_artifact_id@ == options.script_input.artifact_id@
    &&& opt_view(state.expected_source_content_hash) == opt_view(
        options.expected_source_content_hash,
    )
    &&& state.fingerprint@ == canonical_hash_spec(
        encode_utf8(audio_request_text(options, source_file_name)),
    )
    &&& state.media_id@ == "audio"@ + "_"@ + byte_slice(
        state.fingerprint@,
        7,
        encode_utf8(state.fingerprint@).len() as int,
    )
    &&& state.receipt_id@ == receipt_id_for(
        options.expected_project_id@,
        "import_audio"@,
        options.idempotency_key@,
    )
}

/// Starts an audio import: checks the request (see
/// [`validate_audio_options`]) and fixes its fingerprint and receipt; the
/// first work is opening the project.
pub fn start_audio_import(
    options: &ImportAudioOptions,
    source_is_absolute: bool,
    file_name: Option<&str>,
) -> (result: Result<(AudioImportState, AudioImportAction), MediaServiceError>)
    ensures
        match audio_request_refusal(*options, source_is_absolute, opt_text(file_name)) {
            Some((code, message)) => result matches Err(error) && plain_media_error(
                error,
                code,
                MediaOperation::ImportAudio,
                message,
            ),
            None => result matches Ok((state, action)) && {
                &&& file_name matches Some(given) && state.source_file_name@ == given@
                &&& action == AudioImportAction::OpenProject
                &&& audio_import_started(*options, state.source_file_name@, state)
            },
        },
{
    let source_file_name = validate_audio_options(options, source_is_absolute, file_name)?;
    let fingerprint = audio_request_fingerprint(options, source_file_name.as_str());
    proof {
        lemma_hash_text_splits_after_prefix(
            encode_utf8(audio_request_text(*options, source_file_name@)),
        );
    }
    let media_id = stable_media_id("audio", fingerprint.as_str());
    let receipt_id = stable_audio_receipt_id(
        options.expected_project_id.as_str(),
        options.idempotency_key.as_str(),
    );
    let state = AudioImportState {
        stage: AudioImportStage::AwaitProject,
        receipt_committed: false,
        expected_project_id: options.expected_project_id.clone(),
        run_id: options.run_id.clone(),
        script_artifact_id: options.script_input.artifact_id.clone(),
        expected_source_content_hash: options.expected_source_content_hash.clone(),
        source_file_name,
        fingerprint,
        media_id,
        receipt_id,
        source_content_hash: String::new(),
        source_byte_length: 0,
        raw_artifact_id: String::new(),
        artifact_id: String::new(),
        content_hash: String::new(),
    };
    Ok((state, AudioImportAction::OpenProject))
}

fn optional_is(value: &Option<String>, expected: &str) -> (result: bool)
    ensures
        result == (opt_view(*value) == Some(expected@)),
{
    match value {
        Some(text) => same_text(text.as_str(), expected),
        None => false,
    }
}

/// Takes the report of the outside work the import waited for and decides:
/// the import stops with an error (see [`audio_step_refusal`]) or moves on
/// (see [`audio_step_taken`]).
pub fn audio_import_step(state: AudioImportState, event: AudioImportEvent) -> (result: Result<
    (AudioImportState, AudioImportAction),
    MediaServiceError,
>)
    requires
        awaited(state.stage, event),
    ensures
        match audio_step_refusal(state, event) {
            Some((code, message)) => result matches Err(error) && plain_media_error(
                error,
                code,
                MediaOperation::ImportAudio,
                message,
            ),
            None => result matches Ok((next, action)) && audio_step_taken(state, event, next, action),
        },
{
    let operation = MediaOperation::ImportAudio;
    let mut next = state;
    match event {
        AudioImportEvent::ProjectOpened { project_id } => {
            if !same_text(project_id.as_str(), next.expected_project_id.as_str()) {
                return Err(
                    MediaServiceError::new(
                        MediaErrorCode::CrossProjectReference,
                        operation,
                        "媒体请求声明的项目身份与实际项目不一致。",
                    ),
                );
            }
            next.stage = AudioImportStage::AwaitReceipt;
            Ok((next, AudioImportAction::LoadReceipt))
        },
        AudioImportEvent::ReceiptLoaded { receipt } => match receipt {
            None => {
                if next.receipt_committed {
                    return Err(
                        MediaServiceError::new(
                            MediaErrorCode::IdempotencyConflict,
                            operation,
                            "Audio receipt 并发提交后无法重放。",
                        ),
                    );
                }
                next.stage = AudioImportStage::AwaitSource;
                Ok((next, AudioImportAction::ParseSource))
            },
            Some(stored) => {
                check_receipt_binding(
                    &stored,
                    operation,
                    next.run_id.as_str(),
                    "",
                    "",
                    next.fingerprint.as_str(),
                )?;
                next.stage = AudioImportStage::Done;
                Ok((next, AudioImportAction::ReplayReceipt))
            },
        },
        AudioImportEvent::SourceParsed { content_hash, byte_length } => {
            let expected = match &next.expected_source_content_hash {
                Some(hash) => Some(hash.as_str()),
                None => None,
            };
            validate_expected_source_hash(expected, content_hash.as_str(), operation)?;
            next.source_content_hash = content_hash;
            next.source_byte_length = byte_length;
            next.stage = AudioImportStage::AwaitApproval;
            Ok((next, AudioImportAction::ApproveInputs))
        },
        AudioImportEvent::InputsApproved { artifact_ids } => {
            if !(artifact_ids.len() == 1 && optional_is(
                &artifact_ids[0],
                next.script_artifact_id.as_str(),
            )) {
                return Err(
                    MediaServiceError::new(
                        MediaErrorCode::InputReferenceMismatch,
                        operation,
                        "批准输入闭包返回了不一致的 Script Artifact。",
                    ),
                );
            }
            next.stage = AudioImportStage::AwaitScriptRead;
            Ok((next, AudioImportAction::ReadScript))
        },
        AudioImportEvent::ScriptRead => {
            next.stage = AudioImportStage::AwaitRawImport;
            Ok((next, AudioImportAction::ImportRaw))
        },
        AudioImportEvent::RawImported { artifact_id, content_hash, byte_length } => {
            let same_length = match byte_length {
                Some(length) => length == next.source_byte_length,
                None => false,
            };
            if !optional_is(&content_hash, next.source_content_hash.as_str()) || !same_length {
                return Err(
                    MediaServiceError::new(
                        MediaErrorCode::SourceChanged,
                        operation,
                        "媒体源在解析与不可变导入之间发生变化。",
                    ),
                );
            }
            next.raw_artifact_id = artifact_id;
            next.stage = AudioImportStage::AwaitDocument;
            Ok((next, AudioImportAction::StoreDocument))
        },
        AudioImportEvent::DocumentStored { artifact_id, content_hash, persisted_matches } => {
            if !persisted_matches {
                return Err(
                    MediaServiceError::new(
                        MediaErrorCode::ArtifactVerificationFailed,
                        operation,
                        "持久化 Audio 文档与写入前文档不一致。",
                    ),
                );
            }
            next.artifact_id = artifact_id;
            next.content_hash = content_hash;
            next.stage = AudioImportStage::AwaitReceiptCommit;
            Ok((next, AudioImportAction::CommitReceipt))
        },
        AudioImportEvent::ReceiptCommitted { created } => {
            if created {
                next.stage = AudioImportStage::Done;
                Ok((next, AudioImportAction::Finish))
            } else {
                next.receipt_committed = true;
                next.stage = AudioImportStage::AwaitReceipt;
                Ok((next, AudioImportAction::LoadReceipt))
            }
        },
    }
}

/// A stored receipt of this import's operation and run is replayed exactly
/// when it records this request's fingerprint; under another fingerprint the
/// key is refused as bound to another request.
pub proof fn lemma_receipt_replays_only_its_request(state: AudioImportState, stored: MediaReceiptFields)
    requires
        opt_view(stored.operation) == Some("import_audio"@),
        opt_view(stored.run_id) == Some(state.run_id@),
    ensures
        audio_step_refusal(state, AudioImportEvent::ReceiptLoaded { receipt: Some(stored) }) is None
            <==> opt_view(stored.request_fingerprint) == Some(state.fingerprint@),
        opt_view(stored.request_fingerprint) != Some(state.fingerprint@) ==> audio_step_refusal(
            state,
            AudioImportEvent::ReceiptLoaded { receipt: Some(stored) },
        ) == Some((MediaErrorCode::IdempotencyConflict, "幂等键已绑定到不同的 Audio 请求指纹。"@)),
{
}

/// Importing again under one key replays the first import. Two requests of
/// one project with one idempotency key share their receipt. When the second
/// agrees with the first on the run and on every fingerprinted field (source
/// file name, expected source hash, script input, rights, byte limit and
/// configuration), the receipt the first import committed is accepted and
/// replayed; when their fingerprints differ, the second is refused as bound to
/// another request. `second` is the second import's state once it waits for
/// its receipt.
pub proof fn lemma_import_again_replays(
    first_options: ImportAudioOptions,
    first_name: Seq<char>,
    first: AudioImportState,
    second_options: ImportAudioOptions,
    second_name: Seq<char>,
    started: AudioImportState,
    second: AudioImportState,
    stored: MediaReceiptFields,
)
    requires
        audio_import_started(first_options, first_name, first),
        audio_import_started(second_options, second_name, started),
        same_request(started, second),
        first_options.expected_project_id@ == second_options.expected_project_id@,
        first_options.idempotency_key@ == second_options.idempotency_key@,
        opt_view(stored.operation) == Some("import_audio"@),
        opt_view(stored.run_id) == Some(first.run_id@),
        opt_view(stored.request_fingerprint) == Some(first.fingerprint@),
    ensures
        second.receipt_id@ == first.receipt_id@,
        first_options.run_id@ == second_options.run_id@ && audio_request_text(
            first_options,
            first_name,
        ) == audio_request_text(second_options, second_name) ==> {
            &&& audio_step_refusal(
                second,
                AudioImportEvent::ReceiptLoaded { receipt: Some(stored) },
            ) is None
            &&& forall|next: AudioImportState, action: AudioImportAction|
                audio_step_taken(
                    second,
                    AudioImportEvent::ReceiptLoaded { receipt: Some(stored) },
                    next,
                    action,
                ) ==> action == AudioImportAction::ReplayReceipt
        },
        second.fingerprint@ != first.fingerprint@ ==> (audio_step_refusal(
            second,
            AudioImportEvent::ReceiptLoaded { receipt: Some(stored) },
        ) matches Some((code, _)) && code == MediaErrorCode::IdempotencyConflict),
{
}

} // verus!
