use vstd::prelude::*;
use vstd::string::StringSliceAdditionalSpecFns;
use vstd::utf8::encode_utf8;

use crate::digest::{content_digest, receipt_id_for, stable_timeline_receipt_id};
use crate::media_error::{plain_media_error, MediaErrorCode, MediaOperation, MediaServiceError};
use crate::media_fingerprint::frozen_input_json;
use crate::media_receipts::{check_receipt_binding, receipt_conflict, MediaReceiptFields};
use crate::media_rules::{
    generate_timeline_refusal, map_timeline_error, media_code_for_timeline,
    validate_generate_timeline_options,
};
use crate::media_types::{FrozenArtifactInputData, GenerateTimelineOptions, TimelineCanvasData, TimelineSafeAreaData};
use crate::storage_error::opt_view;
use crate::text::same_text;
use crate::timeline_assembly::{
    build_refusal, build_timeline_document, timeline_built, AudioSourceDocument,
    BuildTimelineOptions, CaptionsSourceDocument, ScenePlanSourceDocument,
};
use crate::timeline_document::TimelineDocument;
use crate::timeline_request::{
    canonical_hash_spec, canvas_json, json_string, push_json_string, safe_area_json,
};

verus! {

/// The configuration a generated timeline records, as canonical JSON: the
/// assembly algorithm, its version and its three projection policies.
pub const TIMELINE_CONFIG_SNAPSHOT: &'static str = "{\"algorithmId\":\"narracut.timeline.approved-media-assembly\",\"algorithmVersion\":\"1.0.0\",\"captionReferencePolicy\":\"complete_ordered_cue_ids_v1\",\"sceneBoundaryPolicy\":\"scene_plan_exact_projection_v1\",\"trackProjectionPolicy\":\"approved_structured_references_only_v1\"}";

/// The media schema version generated documents declare.
pub const MEDIA_SCHEMA_VERSION: &'static str = "narracut.media/v1";

/// What identifies a timeline generation, as canonical JSON (keys sorted, no
/// whitespace): the request version, the operation, the project, the run, the
/// three frozen inputs, the canvas, the safe area and the configuration.
pub open spec fn generation_request_text(options: GenerateTimelineOptions) -> Seq<char> {
    "{\"audioInput\":"@ + frozen_input_json(options.audio_input) + ",\"canvas\":"@ + canvas_json(
        options.canvas,
    ) + ",\"captionsInput\":"@ + frozen_input_json(options.captions_input)
        + ",\"configSnapshot\":"@ + TIMELINE_CONFIG_SNAPSHOT@
        + ",\"operation\":\"generate_timeline\",\"projectId\":"@ + json_string(
        options.expected_project_id@,
    ) + ",\"runId\":"@ + json_string(options.run_id@) + ",\"safeArea\":"@ + safe_area_json(
        options.safe_area,
    ) + ",\"scenePlanInput\":"@ + frozen_input_json(options.scene_plan_input) + ",\"version\":1}"@
}

/// The canonical JSON text of a timeline generation (see
/// [`generation_request_text`]).
pub fn generation_request(options: &GenerateTimelineOptions) -> (request: String)
    ensures
        request@ == generation_request_text(*options),
{
    let mut text = String::new();
    text.append("{\"audioInput\":");
    crate::media_fingerprint::push_frozen_input(&mut text, &options.audio_input);
    text.append(",\"canvas\":");
    crate::timeline_request::push_canvas(&mut text, options.canvas);
    text.append(",\"captionsInput\":");
    crate::media_fingerprint::push_frozen_input(&mut text, &options.captions_input);
    text.append(",\"configSnapshot\":");
    text.append(TIMELINE_CONFIG_SNAPSHOT);
    text.append(",\"operation\":\"generate_timeline\",\"projectId\":");
    push_json_string(&mut text, options.expected_project_id.as_str());
    text.append(",\"runId\":");
    push_json_string(&mut text, options.run_id.as_str());
    text.append(",\"safeArea\":");
    crate::timeline_request::push_safe_area(&mut text, options.safe_area);
    text.append(",\"scenePlanInput\":");
    crate::media_fingerprint::push_frozen_input(&mut text, &options.scene_plan_input);
    text.append(",\"version\":1}");
    assert(text@ =~= generation_request_text(*options));
    text
}

/// The semantic fingerprint of a timeline generation: the canonical hash of
/// [`generation_request_text`]. It is also the generated timeline's stable seed.
pub fn generation_request_fingerprint(options: &GenerateTimelineOptions) -> (fingerprint: String)
    ensures
        fingerprint@ == canonical_hash_spec(encode_utf8(generation_request_text(*options))),
{
    let request = generation_request(options);
    content_digest(request.as_str().as_bytes())
}

/// Where a timeline generation stands: the outside work it waits for.
#[derive(Debug, Clone, Copy, PartialEq, Eq, Structural)]
pub enum TimelineGenerationStage {
    AwaitProject,
    AwaitReceipt,
    AwaitApproval,
    AwaitSources,
    AwaitDocument,
    AwaitReceiptCommit,
    Done,
}

/// The outside work a timeline generation asks for next.
#[derive(Debug, Clone, Copy, PartialEq, Eq, Structural)]
pub enum TimelineGenerationAction {
    /// Open the project at the request's path.
    OpenProject,
    /// Load the receipt stored under the state's receipt identifier.
    LoadReceipt,
    /// Have the workflow approve the three frozen inputs.
    ApproveInputs,
    /// Load the three approved source documents and read the clock.
    LoadSources,
    /// The stored receipt answers this request: replay it.
    ReplayReceipt,
    /// Write, store and read back the state's timeline document.
    StoreDocument,
    /// Commit the receipt that binds the key to this generation.
    CommitReceipt,
    /// The generation is complete: report it.
    Finish,
}

/// What the outside work of a timeline generation reported.
#[derive(Debug, Clone, PartialEq, Eq)]
pub enum TimelineGenerationEvent {
    ProjectOpened { project_id: String },
    ReceiptLoaded { receipt: Option<MediaReceiptFields> },
    InputsApproved { artifact_ids: Vec<Option<String>> },
    SourcesLoaded {
        audio_document: AudioSourceDocument,
        captions_document: CaptionsSourceDocument,
        scene_plan_document: ScenePlanSourceDocument,
        created_at: String,
    },
    DocumentStored { artifact_id: String, content_hash: String, persisted_matches: bool },
    ReceiptCommitted { created: bool },
}

/// The three frozen inputs of a generation.
#[derive(Debug, Clone, PartialEq, Eq)]
pub struct GenerationInputs {
    pub audio: FrozenArtifactInputData,
    pub captions: FrozenArtifactInputData,
    pub scene_plan: FrozenArtifactInputData,
}

/// A timeline generation in progress. The frozen inputs are held until the
/// timeline is built from them; the built timeline is held until stored.
#[derive(Debug, Clone, PartialEq, Eq)]
pub struct TimelineGenerationState {
    pub stage: TimelineGenerationStage,
    pub receipt_exists: bool,
    pub receipt_committed: bool,
    pub expected_project_id: String,
    pub run_id: String,
    pub inputs: Option<GenerationInputs>,
    pub canvas: TimelineCanvasData,
    pub safe_area: TimelineSafeAreaData,
    pub config_snapshot: String,
    pub schema_version: String,
    pub fingerprint: String,
    pub receipt_id: String,
    pub document: Option<TimelineDocument>,
    pub artifact_id: String,
    pub content_hash: String,
}

/// The request-fixed fields of two states agree.
pub open spec fn same_generation(a: TimelineGenerationState, b: TimelineGenerationState) -> bool {
    &&& a.expected_project_id@ == b.expected_project_id@
    &&& a.run_id@ == b.run_id@
    &&& a.canvas == b.canvas
    &&& a.safe_area == b.safe_area
    &&& a.config_snapshot@ == b.config_snapshot@
    &&& a.schema_version@ == b.schema_version@
    &&& a.fingerprint@ == b.fingerprint@
    &&& a.receipt_id@ == b.receipt_id@
}

/// The event is the report of the work the stage waits for, and the inputs
/// are held until the sources arrive.
pub open spec fn generation_awaited(state: TimelineGenerationState, event: TimelineGenerationEvent) -> bool {
    match (state.stage, event) {
        (TimelineGenerationStage::AwaitProject, TimelineGenerationEvent::ProjectOpened { .. }) => true,
        (TimelineGenerationStage::AwaitReceipt, TimelineGenerationEvent::ReceiptLoaded { .. }) => true,
        (TimelineGenerationStage::AwaitApproval, TimelineGenerationEvent::InputsApproved { .. }) => state.inputs is Some,
        (TimelineGenerationStage::AwaitSources, TimelineGenerationEvent::SourcesLoaded { .. }) => state.inputs is Some,
        (TimelineGenerationStage::AwaitDocument, TimelineGenerationEvent::DocumentStored { .. }) => true,
        (TimelineGenerationStage::AwaitReceiptCommit, TimelineGenerationEvent::ReceiptCommitted { .. }) => true,
        _ => false,
    }
}

/// The build request a generation makes from its state and its loaded sources:
/// the generation's fingerprint is the stable seed.
pub open spec fn generation_build_options(
    state: TimelineGenerationState,
    audio_document: AudioSourceDocument,
    captions_document: CaptionsSourceDocument,
    scene_plan_document: ScenePlanSourceDocument,
    created_at: String,
) -> BuildTimelineOptions {
    BuildTimelineOptions {
        audio_document,
        captions_document,
        scene_plan_document,
        audio_input: state.inputs.unwrap().audio,
        captions_input: state.inputs.unwrap().captions,
        scene_plan_input: state.inputs.unwrap().scene_plan,
        canvas: state.canvas,
        safe_area: state.safe_area,
        config_snapshot: state.config_snapshot,
        project_id: state.expected_project_id,
        run_id: state.run_id,
        stable_seed: state.fingerprint,
        created_at,
        schema_version: state.schema_version,
    }
}

/// A receipt loaded for this generation is bound to another request.
pub open spec fn generation_receipt_conflict(state: TimelineGenerationState, stored: MediaReceiptFields) -> Option<Seq<char>> {
    receipt_conflict(
        stored,
        MediaOperation::GenerateTimeline,
        state.run_id@,
        Seq::empty(),
        Seq::empty(),
        state.fingerprint@,
    )
}

/// Why the generation stops at this event, with the error's code and message.
pub open spec fn generation_step_refusal(state: TimelineGenerationState, event: TimelineGenerationEvent) -> Option<
    (MediaErrorCode, Seq<char>),
> {
    match event {
        TimelineGenerationEvent::ProjectOpened { project_id } => if project_id@
            != state.expected_project_id@ {
            Some(
                (
                    MediaErrorCode::CrossProjectReference,
                    "Timeline 请求声明的项目身份与实际项目不一致。"@,
                ),
            )
        } else {
            None
        },
        TimelineGenerationEvent::ReceiptLoaded { receipt } => match receipt {
            None => if state.receipt_committed {
                Some(
                    (MediaErrorCode::IdempotencyConflict, "Timeline receipt 并发提交后无法重放。"@),
                )
            } else {
                None
            },
            Some(stored) => match generation_receipt_conflict(state, stored) {
                Some(message) => Some((MediaErrorCode::IdempotencyConflict, message)),
                None => None,
            },
        },
        TimelineGenerationEvent::InputsApproved { artifact_ids } => {
            let inputs = state.inputs.unwrap();
            if !(artifact_ids@.len() == 3 && opt_view(artifact_ids@[0]) == Some(
                inputs.audio.artifact_id@,
            ) && opt_view(artifact_ids@[1]) == Some(inputs.captions.artifact_id@) && opt_view(
                artifact_ids@[2],
            ) == Some(inputs.scene_plan.artifact_id@)) {
                Some(
                    (
                        MediaErrorCode::InputReferenceMismatch,
                        "批准输入闭包返回了不一致的 Audio/Captions/Scene Plan Artifact。"@,
                    ),
                )
            } else {
                None
            }
        },
        TimelineGenerationEvent::SourcesLoaded {
            audio_document,
            captions_document,
            scene_plan_document,
            created_at,
        } => if state.receipt_exists {
            None
        } else {
            match build_refusal(
                generation_build_options(
                    state,
                    audio_document,
                    captions_document,
                    scene_plan_document,
                    created_at,
                ),
            ) {
                Some((code, message)) => Some((media_code_for_timeline(code), message)),
                None => None,
            }
        },
        TimelineGenerationEvent::DocumentStored { persisted_matches, .. } => if !persisted_matches {
            Some(
                (
                    MediaErrorCode::ArtifactVerificationFailed,
                    "持久化 Timeline 文档与写入前文档不一致。"@,
                ),
            )
        } else {
            None
        },
        TimelineGenerationEvent::ReceiptCommitted { .. } => None,
    }
}

/// How an accepted event moves the generation on.
pub open spec fn generation_step_taken(
    state: TimelineGenerationState,
    event: TimelineGenerationEvent,
    next: TimelineGenerationState,
    action: TimelineGenerationAction,
) -> bool {
    &&& same_generation(state, next)
    &&& match event {
        TimelineGenerationEvent::ProjectOpened { .. } => {
            &&& next.stage == TimelineGenerationStage::AwaitReceipt
            &&& action == TimelineGenerationAction::LoadReceipt
            &&& next.receipt_committed == state.receipt_committed
            &&& next.receipt_exists == state.receipt_exists
            &&& next.inputs == state.inputs
        },
        TimelineGenerationEvent::ReceiptLoaded { receipt } => {
            &&& next.receipt_committed == state.receipt_committed
            &&& next.inputs == state.inputs
            &&& if state.receipt_committed {
                next.stage == TimelineGenerationStage::Done && action
                    == TimelineGenerationAction::ReplayReceipt
            } else {
                &&& next.stage == TimelineGenerationStage::AwaitApproval
                &&& action == TimelineGenerationAction::ApproveInputs
                &&& next.receipt_exists == (receipt is Some)
            }
        },
        TimelineGenerationEvent::InputsApproved { .. } => {
            &&& next.stage == TimelineGenerationStage::AwaitSources
            &&& action == TimelineGenerationAction::LoadSources
            &&& next.receipt_committed == state.receipt_committed
            &&& next.receipt_exists == state.receipt_exists
            &&& next.inputs == state.inputs
        },
        TimelineGenerationEvent::SourcesLoaded {
            audio_document,
            captions_document,
            scene_plan_document,
            created_at,
        } => if state.receipt_exists {
            next.stage == TimelineGenerationStage::Done && action
                == TimelineGenerationAction::ReplayReceipt
        } else {
            &&& next.stage == TimelineGenerationStage::AwaitDocument
            &&& action == TimelineGenerationAction::StoreDocument
            &&& next.receipt_committed == state.receipt_committed
            &&& next.receipt_exists == state.receipt_exists
            &&& next.inputs is None
            &&& next.document matches Some(doc) && timeline_built(
                generation_build_options(
                    state,
                    audio_document,
                    captions_document,
                    scene_plan_document,
                    created_at,
                ),
                doc,
            )
        },
        TimelineGenerationEvent::DocumentStored { artifact_id, content_hash, .. } => {
            &&& next.stage == TimelineGenerationStage::AwaitReceiptCommit
            &&& action == TimelineGenerationAction::CommitReceipt
            &&& next.receipt_committed == state.receipt_committed
            &&& next.document == state.document
            &&& next.artifact_id@ == artifact_id@
            &&& next.content_hash@ == content_hash@
        },
        TimelineGenerationEvent::ReceiptCommitted { created } => {
            &&& next.document == state.document
            &&& next.artifact_id@ == state.artifact_id@
            &&& next.content_hash@ == state.content_hash@
            &&& if created {
                next.stage == TimelineGenerationStage::Done && action
                    == TimelineGenerationAction::Finish
            } else {
                next.stage == TimelineGenerationStage::AwaitReceipt && action
                    == TimelineGenerationAction::LoadReceipt && next.receipt_committed
            }
        },
    }
}

/// Starts a timeline generation: checks the request (see
/// [`validate_generate_timeline_options`]) and fixes its fingerprint and
/// receipt; the first work is opening the project.
pub fn start_timeline_generation(options: GenerateTimelineOptions) -> (result: Result<
    (TimelineGenerationState, TimelineGenerationAction),
    MediaServiceError,
>)
    ensures
        match generate_timeline_refusal(options) {
            Some(message) => result matches Err(error) && plain_media_error(
                error,
                MediaErrorCode::InvalidRequest,
                MediaOperation::GenerateTimeline,
                message,
            ),
            None => result matches Ok((state, action)) && {
                &&& state.stage == TimelineGenerationStage::AwaitProject
                &&& action == TimelineGenerationAction::OpenProject
                &&& !state.receipt_exists && !state.receipt_committed
                &&& state.expected_project_id@ == options.expected_project_id@
                &&& state.run_id@ == options.run_id@
                &&& state.inputs == Some(
                    GenerationInputs {
                        audio: options.audio_input,
                        captions: options.captions_input,
                        scene_plan: options.scene_plan_input,
                    },
                )
                &&& state.canvas == options.canvas
                &&& state.safe_area == options.safe_area
                &&& state.config_snapshot@ == TIMELINE_CONFIG_SNAPSHOT@
                &&& state.schema_version@ == MEDIA_SCHEMA_VERSION@
                &&& state.fingerprint@ == canonical_hash_spec(
                    encode_utf8(generation_request_text(options)),
                )
                &&& state.receipt_id@ == receipt_id_for(
                    options.expected_project_id@,
                    "generate_timeline"@,
                    options.idempotency_key@,
                )
                &&& state.document is None
            },
        },
{
    validate_generate_timeline_options(&options)?;
    let fingerprint = generation_request_fingerprint(&options);
    let receipt_id = stable_timeline_receipt_id(
        options.expected_project_id.as_str(),
        options.idempotency_key.as_str(),
    );
    let GenerateTimelineOptions {
        expected_project_id,
        run_id,
        audio_input,
        captions_input,
        scene_plan_input,
        canvas,
        safe_area,
        ..
    } = options;
    let state = TimelineGenerationState {
        stage: TimelineGenerationStage::AwaitProject,
        receipt_exists: false,
        receipt_committed: false,
        expected_project_id,
        run_id,
        inputs: Some(
            GenerationInputs { audio: audio_input, captions: captions_input, scene_plan: scene_plan_input },
        ),
        canvas,
        safe_area,
        config_snapshot: TIMELINE_CONFIG_SNAPSHOT.to_owned(),
        schema_version: MEDIA_SCHEMA_VERSION.to_owned(),
        fingerprint,
        receipt_id,
        document: None,
        artifact_id: String::new(),
        content_hash: String::new(),
    };
    Ok((state, TimelineGenerationAction::OpenProject))
}

fn optional_is(value: &Option<String>, expected: &str) -> (result: bool)
    ensures
        result == (opt_view(*value) == Some(expected@)),
{
    match value {
        Some(text) => same_text(text.as_str(), expected),
        None => false,
    }
}

/// Takes the report of the outside work the generation waited for and
/// decides: it stops with an error (see [`generation_step_refusal`]) or moves
/// on (see [`generation_step_taken`]); on loaded sources it builds the
/// timeline, with its fingerprint as the stable seed.
pub fn timeline_generation_step(state: TimelineGenerationState, event: TimelineGenerationEvent) -> (result:
    Result<(TimelineGenerationState, TimelineGenerationAction), MediaServiceError>)
    requires
        generation_awaited(state, event),
    ensures
        match generation_step_refusal(state, event) {
            Some((code, message)) => result matches Err(error) && plain_media_error(
                error,
                code,
                MediaOperation::GenerateTimeline,
                message,
            ),
            None => result matches Ok((next, action)) && generation_step_taken(
                state,
                event,
                next,
                action,
            ),
        },
{
    let operation = MediaOperation::GenerateTimeline;
    let mut next = state;
    match event {
        TimelineGenerationEvent::ProjectOpened { project_id } => {
            if !same_text(project_id.as_str(), next.expected_project_id.as_str()) {
                return Err(
                    MediaServiceError::new(
                        MediaErrorCode::CrossProjectReference,
                        operation,
                        "Timeline 请求声明的项目身份与实际项目不一致。",
                    ),
                );
            }
            next.stage = TimelineGenerationStage::AwaitReceipt;
            Ok((next, TimelineGenerationAction::LoadReceipt))
        },
        TimelineGenerationEvent::ReceiptLoaded { receipt } => {
            let found = match receipt {
                None => {
                    if next.receipt_committed {
                        return Err(
                            MediaServiceError::new(
                                MediaErrorCode::IdempotencyConflict,
                                operation,
                                "Timeline receipt 并发提交后无法重放。",
                            ),
                        );
                    }
                    false
                },
                Some(stored) => {
                    check_receipt_binding(
                        &stored,
                        operation,
                        next.run_id.as_str(),
                        "",
                        "",
                        next.fingerprint.as_str(),
                    )?;
                    true
                },
            };
            if next.receipt_committed {
                next.stage = TimelineGenerationStage::Done;
                Ok((next, TimelineGenerationAction::ReplayReceipt))
            } else {
                next.receipt_exists = found;
                next.stage = TimelineGenerationStage::AwaitApproval;
                Ok((next, TimelineGenerationAction::ApproveInputs))
            }
        },
        TimelineGenerationEvent::InputsApproved { artifact_ids } => {
            let matches = match &next.inputs {
                Some(inputs) => artifact_ids.len() == 3 && optional_is(
                    &artifact_ids[0],
                    inputs.audio.artifact_id.as_str(),
                ) && optional_is(&artifact_ids[1], inputs.captions.artifact_id.as_str())
                    && optional_is(&artifact_ids[2], inputs.scene_plan.artifact_id.as_str()),
                None => false,
            };
            if !matches {
                return Err(
                    MediaServiceError::new(
                        MediaErrorCode::InputReferenceMismatch,
                        operation,
                        "批准输入闭包返回了不一致的 Audio/Captions/Scene Plan Artifact。",
                    ),
                );
            }
            next.stage = TimelineGenerationStage::AwaitSources;
            Ok((next, TimelineGenerationAction::LoadSources))
        },
        TimelineGenerationEvent::SourcesLoaded {
            audio_document,
            captions_document,
            scene_plan_document,
            created_at,
        } => {
            if next.receipt_exists {
                next.stage = TimelineGenerationStage::Done;
                return Ok((next, TimelineGenerationAction::ReplayReceipt));
            }
            let inputs = next.inputs.take().unwrap();
            let GenerationInputs { audio, captions, scene_plan } = inputs;
            let build = BuildTimelineOptions {
                audio_document,
                captions_document,
                scene_plan_document,
                audio_input: audio,
                captions_input: captions,
                scene_plan_input: scene_plan,
                canvas: next.canvas,
                safe_area: next.safe_area,
                config_snapshot: next.config_snapshot.clone(),
                project_id: next.expected_project_id.clone(),
                run_id: next.run_id.clone(),
                stable_seed: next.fingerprint.clone(),
                created_at,
                schema_version: next.schema_version.clone(),
            };
            match build_timeline_document(build) {
                Ok(document) => {
                    next.document = Some(document);
                    next.stage = TimelineGenerationStage::AwaitDocument;
                    Ok((next, TimelineGenerationAction::StoreDocument))
                },
                Err(error) => Err(map_timeline_error(error, operation)),
            }
        },
        TimelineGenerationEvent::DocumentStored { artifact_id, content_hash, persisted_matches } => {
            if !persisted_matches {
                return Err(
                    MediaServiceError::new(
                        MediaErrorCode::ArtifactVerificationFailed,
                        operation,
                        "持久化 Timeline 文档与写入前文档不一致。",
                    ),
                );
            }
            next.artifact_id = artifact_id;
            next.content_hash = content_hash;
            next.stage = TimelineGenerationStage::AwaitReceiptCommit;
            Ok((next, TimelineGenerationAction::CommitReceipt))
        },
        TimelineGenerationEvent::ReceiptCommitted { created } => {
            if created {
                next.stage = TimelineGenerationStage::Done;
                Ok((next, TimelineGenerationAction::Finish))
            } else {
                next.receipt_committed = true;
                next.stage = TimelineGenerationStage::AwaitReceipt;
                Ok((next, TimelineGenerationAction::LoadReceipt))
            }
        },
    }
}

/// A generated timeline's identity does not depend on the clock: built from
/// one generation and one set of sources at two different times, the two
/// timelines have the same identifier.
pub proof fn lemma_generated_identity_ignores_clock(
    state: TimelineGenerationState,
    audio_document: AudioSourceDocument,
    captions_document: CaptionsSourceDocument,
    scene_plan_document: ScenePlanSourceDocument,
    first_time: String,
    second_time: String,
    first: TimelineDocument,
    second: TimelineDocument,
)
    requires
        timeline_built(
            generation_build_options(
                state,
                audio_document,
                captions_document,
                scene_plan_document,
                first_time,
            ),
            first,
        ),
        timeline_built(
            generation_build_options(
                state,
                audio_document,
                captions_document,
                scene_plan_document,
                second_time,
            ),
            second,
        ),
    ensures
        first.timeline_id@ == second.timeline_id@,
{
    reveal(crate::timeline_assembly::timeline_stable_request);
}

} // verus!
