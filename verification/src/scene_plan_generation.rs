use vstd::prelude::*;
use vstd::string::StringSliceAdditionalSpecFns;
use vstd::utf8::encode_utf8;

use crate::digest::{content_digest, receipt_id_for, stable_scene_plan_receipt_id};
use crate::media_error::{plain_media_error, MediaErrorCode, MediaOperation, MediaServiceError};
use crate::media_fingerprint::{frozen_input_json, push_frozen_input};
use crate::media_receipts::{check_receipt_binding, receipt_conflict, MediaReceiptFields};
use crate::media_rules::{generate_scene_plan_refusal, validate_generate_scene_plan_options};
use crate::media_types::GenerateScenePlanOptions;
use crate::scene_plan_sources::{
    declared_audio, refused_as, scene_plan_source_context, scene_plan_sources_refusal,
    ScenePlanSourceContext, ScenePlanSources,
};
use crate::storage_error::opt_view;
use crate::timeline_assembly::frozen_view;
use crate::text::same_text;
use crate::timeline_request::{canonical_hash_spec, json_string, push_json_string};

verus! {

/// The configuration a generated scene plan records, as canonical JSON: the
/// cue grouping algorithm, its version and its policies.
pub const SCENE_PLAN_CONFIG_SNAPSHOT: &'static str = "{\"algorithmId\":\"narracut.scene-plan.caption-cue-grouping\",\"algorithmVersion\":\"1.0.0\",\"cueGrouping\":{\"maxCuesPerScene\":3},\"silenceBoundaryPolicy\":\"midpoint_between_adjacent_scene_cues\",\"titlePolicy\":\"first_cue_safe_excerpt_v1\",\"traceabilityPolicy\":\"ordered_union_from_assigned_cues_v1\"}";

/// What identifies a scene plan generation, as canonical JSON (keys sorted,
/// no whitespace): the request version, the operation, the project, the run,
/// the three frozen inputs and the configuration.
pub open spec fn scene_plan_request_text(options: GenerateScenePlanOptions) -> Seq<char> {
    "{\"captionsInput\":"@ + frozen_input_json(options.captions_input) + ",\"configSnapshot\":"@
        + SCENE_PLAN_CONFIG_SNAPSHOT@ + ",\"operation\":\"generate_scene_plan\",\"projectId\":"@
        + json_string(options.expected_project_id@) + ",\"researchInput\":"@ + frozen_input_json(
        options.research_input,
    ) + ",\"runId\":"@ + json_string(options.run_id@) + ",\"scriptInput\":"@ + frozen_input_json(
        options.script_input,
    ) + ",\"version\":1}"@
}

/// The canonical JSON text of a scene plan generation (see
/// [`scene_plan_request_text`]).
pub fn scene_plan_request(options: &GenerateScenePlanOptions) -> (request: String)
    ensures
        request@ == scene_plan_request_text(*options),
{
    let mut text = String::new();
    text.append("{\"captionsInput\":");
    push_frozen_input(&mut text, &options.captions_input);
    text.append(",\"configSnapshot\":");
    text.append(SCENE_PLAN_CONFIG_SNAPSHOT);
    text.append(",\"operation\":\"generate_scene_plan\",\"projectId\":");
    push_json_string(&mut text, options.expected_project_id.as_str());
    text.append(",\"researchInput\":");
    push_frozen_input(&mut text, &options.research_input);
    text.append(",\"runId\":");
    push_json_string(&mut text, options.run_id.as_str());
    text.append(",\"scriptInput\":");
    push_frozen_input(&mut text, &options.script_input);
    text.append(",\"version\":1}");
    assert(text@ =~= scene_plan_request_text(*options));
    text
}

/// The semantic fingerprint of a scene plan generation: the canonical hash of
/// [`scene_plan_request_text`]. It is also the scene plan's stable seed.
pub fn scene_plan_request_fingerprint(options: &GenerateScenePlanOptions) -> (fingerprint: String)
    ensures
        fingerprint@ == canonical_hash_spec(encode_utf8(scene_plan_request_text(*options))),
{
    let request = scene_plan_request(options);
    content_digest(request.as_str().as_bytes())
}

/// Where a scene plan generation stands: the outside work it waits for.
#[derive(Debug, Clone, Copy, PartialEq, Eq, Structural)]
pub enum ScenePlanGenerationStage {
    AwaitProject,
    AwaitReceipt,
    AwaitApproval,
    AwaitSources,
    AwaitDocument,
    AwaitReceiptCommit,
    Done,
}

/// The outside work a scene plan generation asks for next.
#[derive(Debug, Clone, Copy, PartialEq, Eq, Structural)]
pub enum ScenePlanGenerationAction {
    /// Open the project at the request's path.
    OpenProject,
    /// Load the receipt stored under the state's receipt identifier.
    LoadReceipt,
    /// Have the workflow approve the three frozen inputs.
    ApproveInputs,
    /// Check the three frozen inputs' content and load the approved captions
    /// document and the audio it names.
    LoadSources,
    /// The stored receipt answers this request: replay it.
    ReplayReceipt,
    /// Build the scene plan with the state's fingerprint as its stable seed,
    /// then write, store and read it back.
    StoreDocument,
    /// Commit the receipt that binds the key to this generation.
    CommitReceipt,
    /// The generation is complete: report it.
    Finish,
}

/// What the outside work of a scene plan generation reported.
#[derive(Debug, Clone, PartialEq, Eq)]
pub enum ScenePlanGenerationEvent {
    ProjectOpened { project_id: String },
    ReceiptLoaded { receipt: Option<MediaReceiptFields> },
    InputsApproved { artifact_ids: Vec<Option<String>> },
    SourcesLoaded { sources: ScenePlanSources },
    DocumentStored { artifact_id: String, content_hash: String, persisted_matches: bool },
    ReceiptCommitted { created: bool },
}

/// A scene plan generation in progress.
#[derive(Debug, Clone, PartialEq, Eq)]
pub struct ScenePlanGenerationState {
    pub stage: ScenePlanGenerationStage,
    pub receipt_exists: bool,
    pub receipt_committed: bool,
    pub options: GenerateScenePlanOptions,
    pub fingerprint: String,
    pub receipt_id: String,
    /// The audio the scene plan is built on, once its sources are checked.
    pub sources: Option<ScenePlanSourceContext>,
    pub artifact_id: String,
    pub content_hash: String,
}

/// The event is the report of the work the stage waits for.
pub open spec fn scene_plan_awaited(stage: ScenePlanGenerationStage, event: ScenePlanGenerationEvent) -> bool {
    match (stage, event) {
        (ScenePlanGenerationStage::AwaitProject, ScenePlanGenerationEvent::ProjectOpened { .. }) => true,
        (ScenePlanGenerationStage::AwaitReceipt, ScenePlanGenerationEvent::ReceiptLoaded { .. }) => true,
        (ScenePlanGenerationStage::AwaitApproval, ScenePlanGenerationEvent::InputsApproved { .. }) => true,
        (ScenePlanGenerationStage::AwaitSources, ScenePlanGenerationEvent::SourcesLoaded { .. }) => true,
        (ScenePlanGenerationStage::AwaitDocument, ScenePlanGenerationEvent::DocumentStored { .. }) => true,
        (ScenePlanGenerationStage::AwaitReceiptCommit, ScenePlanGenerationEvent::ReceiptCommitted { .. }) => true,
        _ => false,
    }
}

/// Why the generation stops at this event, with the error's code and message.
/// Of loaded sources it is the refusal of [`scene_plan_sources_refusal`], whose
/// error may also name the input whose content check failed (see
/// [`scene_plan_step_failed`]).
pub open spec fn scene_plan_step_refusal(state: ScenePlanGenerationState, event: ScenePlanGenerationEvent) -> Option<
    (MediaErrorCode, Seq<char>),
> {
    let options = state.options;
    match event {
        ScenePlanGenerationEvent::ProjectOpened { project_id } => if project_id@
            != options.expected_project_id@ {
            Some(
                (
                    MediaErrorCode::CrossProjectReference,
                    "Scene Plan 请求声明的项目身份与实际项目不一致。"@,
                ),
            )
        } else {
            None
        },
        ScenePlanGenerationEvent::ReceiptLoaded { receipt } => match receipt {
            None => if state.receipt_committed {
                Some(
                    (MediaErrorCode::IdempotencyConflict, "Scene Plan receipt 并发提交后无法重放。"@),
                )
            } else {
                None
            },
            Some(stored) => match receipt_conflict(
                stored,
                MediaOperation::GenerateScenePlan,
                options.run_id@,
                Seq::empty(),
                Seq::empty(),
                state.fingerprint@,
            ) {
                Some(message) => Some((MediaErrorCode::IdempotencyConflict, message)),
                None => None,
            },
        },
        ScenePlanGenerationEvent::InputsApproved { artifact_ids } => if !(artifact_ids@.len() == 3
            && opt_view(artifact_ids@[0]) == Some(options.research_input.artifact_id@) && opt_view(
            artifact_ids@[1],
        ) == Some(options.script_input.artifact_id@) && opt_view(artifact_ids@[2]) == Some(
            options.captions_input.artifact_id@,
        )) {
            Some(
                (
                    MediaErrorCode::InputReferenceMismatch,
                    "批准输入闭包返回了不一致的 Research/Script/Captions Artifact。"@,
                ),
            )
        } else {
            None
        },
        ScenePlanGenerationEvent::SourcesLoaded { sources } => match scene_plan_sources_refusal(
            options,
            sources,
        ) {
            Some(refusal) => Some((refusal.code, refusal.message)),
            None => None,
        },
        ScenePlanGenerationEvent::DocumentStored { persisted_matches, .. } => if !persisted_matches {
            Some(
                (
                    MediaErrorCode::ArtifactVerificationFailed,
                    "持久化 Scene Plan 文档与写入前文档不一致。"@,
                ),
            )
        } else {
            None
        },
        ScenePlanGenerationEvent::ReceiptCommitted { .. } => None,
    }
}

/// `error` is how the generation reports stopping at this event.
pub open spec fn scene_plan_step_failed(
    state: ScenePlanGenerationState,
    event: ScenePlanGenerationEvent,
    error: MediaServiceError,
) -> bool {
    match event {
        ScenePlanGenerationEvent::SourcesLoaded { sources } => match scene_plan_sources_refusal(
            state.options,
            sources,
        ) {
            Some(refusal) => refused_as(error, refusal, state.options.expected_project_id@),
            None => false,
        },
        _ => match scene_plan_step_refusal(state, event) {
            Some((code, message)) => plain_media_error(
                error,
                code,
                MediaOperation::GenerateScenePlan,
                message,
            ),
            None => false,
        },
    }
}

/// How an accepted event moves the generation on.
pub open spec fn scene_plan_step_taken(
    state: ScenePlanGenerationState,
    event: ScenePlanGenerationEvent,
    next: ScenePlanGenerationState,
    action: ScenePlanGenerationAction,
) -> bool {
    &&& next.options == state.options
    &&& next.fingerprint@ == state.fingerprint@
    &&& next.receipt_id@ == state.receipt_id@
    &&& (event !is SourcesLoaded ==> next.sources == state.sources)
    &&& match event {
        ScenePlanGenerationEvent::ProjectOpened { .. } => {
            &&& next.stage == ScenePlanGenerationStage::AwaitReceipt
            &&& action == ScenePlanGenerationAction::LoadReceipt
            &&& next.receipt_committed == state.receipt_committed
            &&& next.receipt_exists == state.receipt_exists
        },
        ScenePlanGenerationEvent::ReceiptLoaded { receipt } => {
            &&& next.receipt_committed == state.receipt_committed
            &&& if state.receipt_committed {
                next.stage == ScenePlanGenerationStage::Done && action
                    == ScenePlanGenerationAction::ReplayReceipt
            } else {
                &&& next.stage == ScenePlanGenerationStage::AwaitApproval
                &&& action == ScenePlanGenerationAction::ApproveInputs
                &&& next.receipt_exists == (receipt is Some)
            }
        },
        ScenePlanGenerationEvent::InputsApproved { .. } => {
            &&& next.stage == ScenePlanGenerationStage::AwaitSources
            &&& action == ScenePlanGenerationAction::LoadSources
            &&& next.receipt_committed == state.receipt_committed
            &&& next.receipt_exists == state.receipt_exists
        },
        ScenePlanGenerationEvent::SourcesLoaded { sources } => {
            &&& next.sources matches Some(context) && frozen_view(context.audio_input)
                == frozen_view(declared_audio(sources.captions)) && context.audio_duration_ms
                == sources.audio_document.duration_ms.unwrap()
            &&& next.receipt_committed == state.receipt_committed
            &&& next.receipt_exists == state.receipt_exists
            &&& if state.receipt_exists {
                next.stage == ScenePlanGenerationStage::Done && action
                    == ScenePlanGenerationAction::ReplayReceipt
            } else {
                next.stage == ScenePlanGenerationStage::AwaitDocument && action
                    == ScenePlanGenerationAction::StoreDocument
            }
        },
        ScenePlanGenerationEvent::DocumentStored { artifact_id, content_hash, .. } => {
            &&& next.stage == ScenePlanGenerationStage::AwaitReceiptCommit
            &&& action == ScenePlanGenerationAction::CommitReceipt
            &&& next.receipt_committed == state.receipt_committed
            &&& next.artifact_id@ == artifact_id@
            &&& next.content_hash@ == content_hash@
        },
        ScenePlanGenerationEvent::ReceiptCommitted { created } => {
            &&& next.artifact_id@ == state.artifact_id@
            &&& next.content_hash@ == state.content_hash@
            &&& if created {
                next.stage == ScenePlanGenerationStage::Done && action
                    == ScenePlanGenerationAction::Finish
            } else {
                next.stage == ScenePlanGenerationStage::AwaitReceipt && action
                    == ScenePlanGenerationAction::LoadReceipt && next.receipt_committed
            }
        },
    }
}

/// Starts a scene plan generation: checks the request (see
/// [`validate_generate_scene_plan_options`]) and fixes its fingerprint and
/// receipt; the first work is opening the project.
pub fn start_scene_plan_generation(options: GenerateScenePlanOptions) -> (result: Result<
    (ScenePlanGenerationState, ScenePlanGenerationAction),
    MediaServiceError,
>)
    ensures
        match generate_scene_plan_refusal(options) {
            Some(message) => result matches Err(error) && plain_media_error(
                error,
                MediaErrorCode::InvalidRequest,
                MediaOperation::GenerateScenePlan,
                message,
            ),
            None => result matches Ok((state, action)) && {
                &&& state.stage == ScenePlanGenerationStage::AwaitProject
                &&& action == ScenePlanGenerationAction::OpenProject
                &&& !state.receipt_exists && !state.receipt_committed
                &&& state.sources is None
                &&& state.options == options
                &&& state.fingerprint@ == canonical_hash_spec(
                    encode_utf8(scene_plan_request_text(options)),
                )
                &&& state.receipt_id@ == receipt_id_for(
                    options.expected_project_id@,
                    "generate_scene_plan"@,
                    options.idempotency_key@,
                )
            },
        },
{
    validate_generate_scene_plan_options(&options)?;
    let fingerprint = scene_plan_request_fingerprint(&options);
    let receipt_id = stable_scene_plan_receipt_id(
        options.expected_project_id.as_str(),
        options.idempotency_key.as_str(),
    );
    let state = ScenePlanGenerationState {
        stage: ScenePlanGenerationStage::AwaitProject,
        receipt_exists: false,
        receipt_committed: false,
        options,
        fingerprint,
        receipt_id,
        sources: None,
        artifact_id: String::new(),
        content_hash: String::new(),
    };
    Ok((state, ScenePlanGenerationAction::OpenProject))
}

fn optional_is(value: &Option<String>, expected: &str) -> (result: bool)
    ensures
        result == (opt_view(*value) == Some(expected@)),
{
    match value {
        Some(text) => same_text(text.as_str(), expected),
        None => false,
    }
}

/// Takes the report of the outside work the generation waited for and
/// decides: it stops with an error (see [`scene_plan_step_refusal`]) or moves
/// on (see [`scene_plan_step_taken`]).
#[verifier::rlimit(40)]
pub fn scene_plan_generation_step(state: ScenePlanGenerationState, event: ScenePlanGenerationEvent) -> (result:
    Result<(ScenePlanGenerationState, ScenePlanGenerationAction), MediaServiceError>)
    requires
        scene_plan_awaited(state.stage, event),
    ensures
        match scene_plan_step_refusal(state, event) {
            Some(_) => result matches Err(error) && scene_plan_step_failed(state, event, error),
            None => result matches Ok((next, action)) && scene_plan_step_taken(
                state,
                event,
                next,
                action,
            ),
        },
{
    let operation = MediaOperation::GenerateScenePlan;
    let mut next = state;
    match event {
        ScenePlanGenerationEvent::ProjectOpened { project_id } => {
            if !same_text(project_id.as_str(), next.options.expected_project_id.as_str()) {
                return Err(
                    MediaServiceError::new(
                        MediaErrorCode::CrossProjectReference,
                        operation,
                        "Scene Plan 请求声明的项目身份与实际项目不一致。",
                    ),
                );
            }
            next.stage = ScenePlanGenerationStage::AwaitReceipt;
            Ok((next, ScenePlanGenerationAction::LoadReceipt))
        },
        ScenePlanGenerationEvent::ReceiptLoaded { receipt } => {
            let found = match receipt {
                None => {
                    if next.receipt_committed {
                        return Err(
                            MediaServiceError::new(
                                MediaErrorCode::IdempotencyConflict,
                                operation,
                                "Scene Plan receipt 并发提交后无法重放。",
                            ),
                        );
                    }
                    false
                },
                Some(stored) => {
                    check_receipt_binding(
                        &stored,
                        operation,
                        next.options.run_id.as_str(),
                        "",
                        "",
                        next.fingerprint.as_str(),
                    )?;
                    true
                },
            };
            if next.receipt_committed {
                next.stage = ScenePlanGenerationStage::Done;
                Ok((next, ScenePlanGenerationAction::ReplayReceipt))
            } else {
                next.receipt_exists = found;
                next.stage = ScenePlanGenerationStage::AwaitApproval;
                Ok((next, ScenePlanGenerationAction::ApproveInputs))
            }
        },
        ScenePlanGenerationEvent::InputsApproved { artifact_ids } => {
            if !(artifact_ids.len() == 3 && optional_is(
                &artifact_ids[0],
                next.options.research_input.artifact_id.as_str(),
            ) && optional_is(&artifact_ids[1], next.options.script_input.artifact_id.as_str())
                && optional_is(&artifact_ids[2], next.options.captions_input.artifact_id.as_str())) {
                return Err(
                    MediaServiceError::new(
                        MediaErrorCode::InputReferenceMismatch,
                        operation,
                        "批准输入闭包返回了不一致的 Research/Script/Captions Artifact。",
                    ),
                );
            }
            next.stage = ScenePlanGenerationStage::AwaitSources;
            Ok((next, ScenePlanGenerationAction::LoadSources))
        },
        ScenePlanGenerationEvent::SourcesLoaded { sources } => {
            let context = scene_plan_source_context(&next.options, &sources)?;
            next.sources = Some(context);
            if next.receipt_exists {
                next.stage = ScenePlanGenerationStage::Done;
                Ok((next, ScenePlanGenerationAction::ReplayReceipt))
            } else {
                next.stage = ScenePlanGenerationStage::AwaitDocument;
                Ok((next, ScenePlanGenerationAction::StoreDocument))
            }
        },
        ScenePlanGenerationEvent::DocumentStored { artifact_id, content_hash, persisted_matches } => {
            if !persisted_matches {
                return Err(
                    MediaServiceError::new(
                        MediaErrorCode::ArtifactVerificationFailed,
                        operation,
                        "持久化 Scene Plan 文档与写入前文档不一致。",
                    ),
                );
            }
            next.artifact_id = artifact_id;
            next.content_hash = content_hash;
            next.stage = ScenePlanGenerationStage::AwaitReceiptCommit;
            Ok((next, ScenePlanGenerationAction::CommitReceipt))
        },
        ScenePlanGenerationEvent::ReceiptCommitted { created } => {
            if created {
                next.stage = ScenePlanGenerationStage::Done;
                Ok((next, ScenePlanGenerationAction::Finish))
            } else {
                next.receipt_committed = true;
                next.stage = ScenePlanGenerationStage::AwaitReceipt;
                Ok((next, ScenePlanGenerationAction::LoadReceipt))
            }
        },
    }
}

} // verus!
