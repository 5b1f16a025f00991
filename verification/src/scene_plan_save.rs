use vstd::prelude::*;
use vstd::string::StringSliceAdditionalSpecFns;
use vstd::utf8::encode_utf8;

use crate::digest::{content_digest, receipt_id_for, stable_scene_plan_save_receipt_id};
use crate::hash_text::lemma_hash_text_splits_after_prefix;
use crate::media_error::{plain_media_error, MediaErrorCode, MediaOperation, MediaServiceError};
use crate::media_receipts::{check_receipt_binding, receipt_conflict, MediaReceiptFields};
use crate::media_rules::{
    byte_slice, map_scene_plan_error, media_code_for_scene_plan, save_request_valid,
    stable_media_id, validate_save_scene_plan_options, ScenePlanError,
};
use crate::media_types::{SaveScenePlanOptions, ScenePlanEditData};
use crate::storage_error::opt_view;
use crate::text::{push_char, same_text};
use crate::timeline_request::{canonical_hash_spec, json_string, push_json_string};

verus! {

/// A string that may be absent, as JSON: the string, or `null`.
pub open spec fn nullable_json(value: Option<String>) -> Seq<char> {
    match value {
        Some(text) => json_string(text@),
        None => "null"@,
    }
}

/// One scene plan edit as canonical JSON: its operation tag and its fields.
pub open spec fn scene_plan_edit_json(edit: ScenePlanEditData) -> Seq<char> {
    match edit {
        ScenePlanEditData::Split { scene_id, boundary_cue_id } => "{\"boundary_cue_id\":"@
            + json_string(boundary_cue_id@) + ",\"operation\":\"split\",\"scene_id\":"@
            + json_string(scene_id@) + "}"@,
        ScenePlanEditData::Merge { first_scene_id, second_scene_id } => "{\"first_scene_id\":"@
            + json_string(first_scene_id@) + ",\"operation\":\"merge\",\"second_scene_id\":"@
            + json_string(second_scene_id@) + "}"@,
        ScenePlanEditData::Update { scene_id, title, narrative_role } => "{\"narrative_role\":"@
            + nullable_json(narrative_role) + ",\"operation\":\"update\",\"scene_id\":"@
            + json_string(scene_id@) + ",\"title\":"@ + nullable_json(title) + "}"@,
        ScenePlanEditData::MoveBoundary { left_scene_id, right_scene_id, boundary_cue_id } =>
            "{\"boundary_cue_id\":"@ + json_string(boundary_cue_id@) + ",\"left_scene_id\":"@
            + json_string(left_scene_id@) + ",\"operation\":\"move_boundary\",\"right_scene_id\":"@
            + json_string(right_scene_id@) + "}"@,
    }
}

/// The items of a JSON array of scene plan edits, separated by commas.
pub open spec fn scene_plan_edit_items(edits: Seq<ScenePlanEditData>) -> Seq<char>
    decreases edits.len(),
{
    if edits.len() == 0 {
        Seq::empty()
    } else if edits.len() == 1 {
        scene_plan_edit_json(edits[0])
    } else {
        scene_plan_edit_items(edits.drop_last()) + seq![','] + scene_plan_edit_json(edits.last())
    }
}

/// What identifies a scene plan save, as canonical JSON: the request version,
/// the operation, the project, the run, the base artifact and its content
/// hash, the edits and the change summary.
pub open spec fn scene_plan_save_request_text(
    project_id: Seq<char>,
    run_id: Seq<char>,
    base_artifact_id: Seq<char>,
    base_content_hash: Seq<char>,
    edits: Seq<ScenePlanEditData>,
    change_summary: Seq<char>,
) -> Seq<char> {
    "{\"baseArtifactId\":"@ + json_string(base_artifact_id) + ",\"baseContentHash\":"@
        + json_string(base_content_hash) + ",\"changeSummary\":"@ + json_string(change_summary)
        + ",\"edits\":["@ + scene_plan_edit_items(edits)
        + "],\"operation\":\"save_scene_plan\",\"projectId\":"@ + json_string(project_id)
        + ",\"runId\":"@ + json_string(run_id) + ",\"version\":1}"@
}

fn push_nullable(text: &mut String, value: &Option<String>)
    ensures
        final(text)@ == old(text)@ + nullable_json(*value),
{
    match value {
        Some(inner) => push_json_string(text, inner.as_str()),
        None => text.append("null"),
    }
}

fn push_scene_plan_edit(text: &mut String, edit: &ScenePlanEditData)
    ensures
        final(text)@ == old(text)@ + scene_plan_edit_json(*edit),
{
    let ghost start = text@;
    match edit {
        ScenePlanEditData::Split { scene_id, boundary_cue_id } => {
            text.append("{\"boundary_cue_id\":");
            push_json_string(text, boundary_cue_id.as_str());
            text.append(",\"operation\":\"split\",\"scene_id\":");
            push_json_string(text, scene_id.as_str());
            text.append("}");
        },
        ScenePlanEditData::Merge { first_scene_id, second_scene_id } => {
            text.append("{\"first_scene_id\":");
            push_json_string(text, first_scene_id.as_str());
            text.append(",\"operation\":\"merge\",\"second_scene_id\":");
            push_json_string(text, second_scene_id.as_str());
            text.append("}");
        },
        ScenePlanEditData::Update { scene_id, title, narrative_role } => {
            text.append("{\"narrative_role\":");
            push_nullable(text, narrative_role);
            text.append(",\"operation\":\"update\",\"scene_id\":");
            push_json_string(text, scene_id.as_str());
            text.append(",\"title\":");
            push_nullable(text, title);
            text.append("}");
        },
        ScenePlanEditData::MoveBoundary { left_scene_id, right_scene_id, boundary_cue_id } => {
            text.append("{\"boundary_cue_id\":");
            push_json_string(text, boundary_cue_id.as_str());
            text.append(",\"left_scene_id\":");
            push_json_string(text, left_scene_id.as_str());
            text.append(",\"operation\":\"move_boundary\",\"right_scene_id\":");
            push_json_string(text, right_scene_id.as_str());
            text.append("}");
        },
    }
    assert(text@ =~= start + scene_plan_edit_json(*edit));
}

fn push_scene_plan_edit_items(text: &mut String, edits: &Vec<ScenePlanEditData>)
    ensures
        final(text)@ == old(text)@ + scene_plan_edit_items(edits@),
{
    let ghost start = text@;
    let mut i: usize = 0;
    while i < edits.len()
        invariant
            0 <= i <= edits@.len(),
            text@ == start + scene_plan_edit_items(edits@.take(i as int)),
        decreases edits@.len() - i,
    {
        assert(edits@.take(i + 1).drop_last() =~= edits@.take(i as int));
        if i > 0 {
            push_char(text, ',');
        }
        push_scene_plan_edit(text, &edits[i]);
        proof {
            if i == 0 {
                assert(edits@.take(1)[0] == edits@[0]);
            }
            assert(text@ =~= start + scene_plan_edit_items(edits@.take(i + 1)));
        }
        i = i + 1;
    }
    assert(edits@.take(edits@.len() as int) =~= edits@);
}

/// The canonical JSON text of a scene plan save (see
/// [`scene_plan_save_request_text`]).
pub fn scene_plan_save_request(options: &SaveScenePlanOptions, base_content_hash: &str) -> (request: String)
    ensures
        request@ == scene_plan_save_request_text(
            options.expected_project_id@,
            options.run_id@,
            options.base_artifact_id@,
            base_content_hash@,
            options.edits@,
            options.change_summary@,
        ),
{
    let mut text = String::new();
    text.append("{\"baseArtifactId\":");
    push_json_string(&mut text, options.base_artifact_id.as_str());
    text.append(",\"baseContentHash\":");
    push_json_string(&mut text, base_content_hash);
    text.append(",\"changeSummary\":");
    push_json_string(&mut text, options.change_summary.as_str());
    text.append(",\"edits\":[");
    push_scene_plan_edit_items(&mut text, &options.edits);
    text.append("],\"operation\":\"save_scene_plan\",\"projectId\":");
    push_json_string(&mut text, options.expected_project_id.as_str());
    text.append(",\"runId\":");
    push_json_string(&mut text, options.run_id.as_str());
    text.append(",\"version\":1}");
    assert(text@ =~= scene_plan_save_request_text(
        options.expected_project_id@,
        options.run_id@,
        options.base_artifact_id@,
        base_content_hash@,
        options.edits@,
        options.change_summary@,
    ));
    text
}

/// Where a scene plan save stands: the outside work it waits for.
#[derive(Debug, Clone, Copy, PartialEq, Eq, Structural)]
pub enum ScenePlanSaveStage {
    AwaitProject,
    AwaitBase,
    AwaitReceipt,
    AwaitDryRun,
    AwaitRun,
    AwaitEdits,
    AwaitDocument,
    AwaitReceiptCommit,
    Done,
}

/// The outside work a scene plan save asks for next.
#[derive(Debug, Clone, Copy, PartialEq, Eq, Structural)]
pub enum ScenePlanSaveAction {
    /// Open the project at the request's path.
    OpenProject,
    /// Load and check the base scene plan and its content hash.
    LoadBase,
    /// Load the receipt stored under the state's receipt identifier.
    LoadReceipt,
    /// Try the edits on the base with the state's identifier and the dry
    /// run's clock time.
    TryEdits,
    /// Prepare the save run: freeze the inputs, enqueue and lease the job.
    PrepareRun,
    /// The stored receipt answers this request: replay it and record the run.
    ReplayReceipt,
    /// Apply the edits on the base with the run's clock time, and check the
    /// edited scene plan.
    ApplyEdits,
    /// Write, store and read back the edited scene plan.
    StoreDocument,
    /// Commit the receipt that binds the key to this save.
    CommitReceipt,
    /// Record the run and report the save.
    Finish,
}

/// What the outside work of a scene plan save reported.
#[derive(Debug, Clone, PartialEq, Eq)]
pub enum ScenePlanSaveEvent {
    ProjectOpened { project_id: String },
    BaseLoaded { content_hash: String },
    ReceiptLoaded { receipt: Option<MediaReceiptFields> },
    /// The edits tried on the base: `None`, or why they were refused.
    EditsTried { refusal: Option<ScenePlanError> },
    RunPrepared,
    /// The edits applied and the result checked: `None`, or why not.
    EditsApplied { refusal: Option<ScenePlanError> },
    DocumentStored { artifact_id: String, content_hash: String, persisted_matches: bool },
    ReceiptCommitted { created: bool },
}

/// A scene plan save in progress.
#[derive(Debug, Clone, PartialEq, Eq)]
pub struct ScenePlanSaveState {
    pub stage: ScenePlanSaveStage,
    pub receipt_exists: bool,
    pub receipt_committed: bool,
    pub options: SaveScenePlanOptions,
    pub receipt_id: String,
    pub base_content_hash: String,
    pub fingerprint: String,
    pub scene_plan_id: String,
    pub artifact_id: String,
    pub content_hash: String,
}

/// The event is the report of the work the stage waits for.
pub open spec fn awaited_save(stage: ScenePlanSaveStage, event: ScenePlanSaveEvent) -> bool {
    match (stage, event) {
        (ScenePlanSaveStage::AwaitProject, ScenePlanSaveEvent::ProjectOpened { .. }) => true,
        (ScenePlanSaveStage::AwaitBase, ScenePlanSaveEvent::BaseLoaded { .. }) => true,
        (ScenePlanSaveStage::AwaitReceipt, ScenePlanSaveEvent::ReceiptLoaded { .. }) => true,
        (ScenePlanSaveStage::AwaitDryRun, ScenePlanSaveEvent::EditsTried { .. }) => true,
        (ScenePlanSaveStage::AwaitRun, ScenePlanSaveEvent::RunPrepared) => true,
        (ScenePlanSaveStage::AwaitEdits, ScenePlanSaveEvent::EditsApplied { .. }) => true,
        (ScenePlanSaveStage::AwaitDocument, ScenePlanSaveEvent::DocumentStored { .. }) => true,
        (ScenePlanSaveStage::AwaitReceiptCommit, ScenePlanSaveEvent::ReceiptCommitted { .. }) => true,
        _ => false,
    }
}

/// The error a refused edit is reported as.
pub open spec fn edit_refusal(refusal: Option<ScenePlanError>) -> Option<(MediaErrorCode, Seq<char>)> {
    match refusal {
        Some(error) => Some((media_code_for_scene_plan(error.code), error.message@)),
        None => None,
    }
}

/// Why the save stops at this event, with the error's code and message.
pub open spec fn save_step_refusal(state: ScenePlanSaveState, event: ScenePlanSaveEvent) -> Option<
    (MediaErrorCode, Seq<char>),
> {
    match event {
        ScenePlanSaveEvent::ProjectOpened { project_id } => if project_id@
            != state.options.expected_project_id@ {
            Some(
                (
                    MediaErrorCode::CrossProjectReference,
                    "Scene Plan 保存请求声明的项目身份与实际项目不一致。"@,
                ),
            )
        } else {
            None
        },
        ScenePlanSaveEvent::BaseLoaded { .. } => None,
        ScenePlanSaveEvent::ReceiptLoaded { receipt } => match receipt {
            Some(stored) => match receipt_conflict(
                stored,
                MediaOperation::SaveScenePlan,
                state.options.run_id@,
                state.options.base_artifact_id@,
                state.base_content_hash@,
                state.fingerprint@,
            ) {
                Some(message) => Some((MediaErrorCode::IdempotencyConflict, message)),
                None => None,
            },
            None => if state.receipt_committed {
                Some(
                    (
                        MediaErrorCode::IdempotencyConflict,
                        "Scene Plan 保存 receipt 并发提交后无法重放。"@,
                    ),
                )
            } else {
                None
            },
        },
        ScenePlanSaveEvent::EditsTried { refusal } => edit_refusal(refusal),
        ScenePlanSaveEvent::RunPrepared => None,
        ScenePlanSaveEvent::EditsApplied { refusal } => edit_refusal(refusal),
        ScenePlanSaveEvent::DocumentStored { persisted_matches, .. } => if !persisted_matches {
            Some(
                (
                    MediaErrorCode::ArtifactVerificationFailed,
                    "持久化 Scene Plan 编辑结果与写入前文档不一致。"@,
                ),
            )
        } else {
            None
        },
        ScenePlanSaveEvent::ReceiptCommitted { .. } => None,
    }
}

/// How an accepted event moves the save on.
pub open spec fn save_step_taken(
    state: ScenePlanSaveState,
    event: ScenePlanSaveEvent,
    next: ScenePlanSaveState,
    action: ScenePlanSaveAction,
) -> bool {
    &&& next.options == state.options
    &&& next.receipt_id@ == state.receipt_id@
    &&& match event {
        ScenePlanSaveEvent::ProjectOpened { .. } => {
            &&& next.stage == ScenePlanSaveStage::AwaitBase
            &&& action == ScenePlanSaveAction::LoadBase
            &&& next.receipt_committed == state.receipt_committed
        },
        ScenePlanSaveEvent::BaseLoaded { content_hash } => {
            &&& next.stage == ScenePlanSaveStage::AwaitReceipt
            &&& action == ScenePlanSaveAction::LoadReceipt
            &&& next.receipt_committed == state.receipt_committed
            &&& next.base_content_hash@ == content_hash@
            &&& next.fingerprint@ == canonical_hash_spec(
                encode_utf8(
                    scene_plan_save_request_text(
                        state.options.expected_project_id@,
                        state.options.run_id@,
                        state.options.base_artifact_id@,
                        content_hash@,
                        state.options.edits@,
                        state.options.change_summary@,
                    ),
                ),
            )
            &&& next.scene_plan_id@ == "sceneplan_edit"@ + "_"@ + byte_slice(
                next.fingerprint@,
                7,
                encode_utf8(next.fingerprint@).len() as int,
            )
        },
        ScenePlanSaveEvent::ReceiptLoaded { receipt } => {
            &&& next.fingerprint@ == state.fingerprint@
            &&& next.scene_plan_id@ == state.scene_plan_id@
            &&& next.base_content_hash@ == state.base_content_hash@
            &&& next.receipt_committed == state.receipt_committed
            &&& if state.receipt_committed {
                next.stage == ScenePlanSaveStage::Done && action
                    == ScenePlanSaveAction::ReplayReceipt
            } else if receipt is Some {
                next.stage == ScenePlanSaveStage::AwaitRun && action == ScenePlanSaveAction::PrepareRun
                    && next.receipt_exists
            } else {
                next.stage == ScenePlanSaveStage::AwaitDryRun && action == ScenePlanSaveAction::TryEdits
                    && !next.receipt_exists
            }
        },
        ScenePlanSaveEvent::EditsTried { .. } => {
            &&& next.stage == ScenePlanSaveStage::AwaitRun
            &&& action == ScenePlanSaveAction::PrepareRun
            &&& next.receipt_exists == state.receipt_exists
            &&& next.fingerprint@ == state.fingerprint@
            &&& next.scene_plan_id@ == state.scene_plan_id@
        },
        ScenePlanSaveEvent::RunPrepared => {
            &&& next.receipt_exists == state.receipt_exists
            &&& next.scene_plan_id@ == state.scene_plan_id@
            &&& if state.receipt_exists {
                next.stage == ScenePlanSaveStage::Done && action
                    == ScenePlanSaveAction::ReplayReceipt
            } else {
                next.stage == ScenePlanSaveStage::AwaitEdits && action
                    == ScenePlanSaveAction::ApplyEdits
            }
        },
        ScenePlanSaveEvent::EditsApplied { .. } => {
            &&& next.stage == ScenePlanSaveStage::AwaitDocument
            &&& action == ScenePlanSaveAction::StoreDocument
            &&& next.fingerprint@ == state.fingerprint@
        },
        ScenePlanSaveEvent::DocumentStored { artifact_id, content_hash, .. } => {
            &&& next.stage == ScenePlanSaveStage::AwaitReceiptCommit
            &&& action == ScenePlanSaveAction::CommitReceipt
            &&& next.receipt_committed == state.receipt_committed
            &&& next.fingerprint@ == state.fingerprint@
            &&& next.artifact_id@ == artifact_id@
            &&& next.content_hash@ == content_hash@
        },
        ScenePlanSaveEvent::ReceiptCommitted { created } => {
            &&& next.fingerprint@ == state.fingerprint@
            &&& next.artifact_id@ == state.artifact_id@
            &&& next.content_hash@ == state.content_hash@
            &&& if created {
                next.stage == ScenePlanSaveStage::Done && action == ScenePlanSaveAction::Finish
            } else {
                next.stage == ScenePlanSaveStage::AwaitReceipt && action
                    == ScenePlanSaveAction::LoadReceipt && next.receipt_committed
            }
        },
    }
}

/// Starts a scene plan save: checks the request (see
/// [`validate_save_scene_plan_options`]) and fixes its receipt; the first
/// work is opening the project.
pub fn start_scene_plan_save(options: SaveScenePlanOptions) -> (result: Result<
    (ScenePlanSaveState, ScenePlanSaveAction),
    MediaServiceError,
>)
    ensures
        !save_request_valid(
            options.run_id@,
            options.expected_project_id@,
            options.base_artifact_id@,
            options.edits@.len() as int,
            options.change_summary@,
            options.idempotency_key@,
        ) ==> (result matches Err(error) && plain_media_error(
            error,
            MediaErrorCode::InvalidRequest,
            MediaOperation::SaveScenePlan,
            "Scene Plan 保存请求无效或超过资源上限。"@,
        )),
        save_request_valid(
            options.run_id@,
            options.expected_project_id@,
            options.base_artifact_id@,
            options.edits@.len() as int,
            options.change_summary@,
            options.idempotency_key@,
        ) ==> (result matches Ok((state, action)) && {
            &&& state.stage == ScenePlanSaveStage::AwaitProject
            &&& action == ScenePlanSaveAction::OpenProject
            &&& !state.receipt_exists && !state.receipt_committed
            &&& state.options == options
            &&& state.receipt_id@ == receipt_id_for(
                options.expected_project_id@,
                "save_scene_plan"@,
                options.idempotency_key@,
            )
        }),
{
    validate_save_scene_plan_options(&options)?;
    let receipt_id = stable_scene_plan_save_receipt_id(
        options.expected_project_id.as_str(),
        options.idempotency_key.as_str(),
    );
    let state = ScenePlanSaveState {
        stage: ScenePlanSaveStage::AwaitProject,
        receipt_exists: false,
        receipt_committed: false,
        options,
        receipt_id,
        base_content_hash: String::new(),
        fingerprint: String::new(),
        scene_plan_id: String::new(),
        artifact_id: String::new(),
        content_hash: String::new(),
    };
    Ok((state, ScenePlanSaveAction::OpenProject))
}

/// Takes the report of the outside work the save waited for and decides: it
/// stops with an error (see [`save_step_refusal`]) or moves on (see
/// [`save_step_taken`]). Where a step after the run is prepared fails, the
/// caller fails that run.
#[verifier::rlimit(80)]
#[verifier::spinoff_prover]
pub fn scene_plan_save_step(state: ScenePlanSaveState, event: ScenePlanSaveEvent) -> (result: Result<
    (ScenePlanSaveState, ScenePlanSaveAction),
    MediaServiceError,
>)
    requires
        awaited_save(state.stage, event),
    ensures
        match save_step_refusal(state, event) {
            Some((code, message)) => result matches Err(error) && plain_media_error(
                error,
                code,
                MediaOperation::SaveScenePlan,
                message,
            ),
            None => result matches Ok((next, action)) && save_step_taken(state, event, next, action),
        },
{
    let operation = MediaOperation::SaveScenePlan;
    let mut next = state;
    match event {
        ScenePlanSaveEvent::ProjectOpened { project_id } => {
            if !same_text(project_id.as_str(), next.options.expected_project_id.as_str()) {
                return Err(
                    MediaServiceError::new(
                        MediaErrorCode::CrossProjectReference,
                        operation,
                        "Scene Plan 保存请求声明的项目身份与实际项目不一致。",
                    ),
                );
            }
            next.stage = ScenePlanSaveStage::AwaitBase;
            Ok((next, ScenePlanSaveAction::LoadBase))
        },
        ScenePlanSaveEvent::BaseLoaded { content_hash } => {
            let request = scene_plan_save_request(&next.options, content_hash.as_str());
            let fingerprint = content_digest(request.as_str().as_bytes());
            proof {
                lemma_hash_text_splits_after_prefix(encode_utf8(request@));
            }
            next.scene_plan_id = stable_media_id("sceneplan_edit", fingerprint.as_str());
            next.fingerprint = fingerprint;
            next.base_content_hash = content_hash;
            next.stage = ScenePlanSaveStage::AwaitReceipt;
            Ok((next, ScenePlanSaveAction::LoadReceipt))
        },
        ScenePlanSaveEvent::ReceiptLoaded { receipt } => match receipt {
            Some(stored) => {
                check_receipt_binding(
                    &stored,
                    operation,
                    next.options.run_id.as_str(),
                    next.options.base_artifact_id.as_str(),
                    next.base_content_hash.as_str(),
                    next.fingerprint.as_str(),
                )?;
                if next.receipt_committed {
                    next.stage = ScenePlanSaveStage::Done;
                    Ok((next, ScenePlanSaveAction::ReplayReceipt))
                } else {
                    next.receipt_exists = true;
                    next.stage = ScenePlanSaveStage::AwaitRun;
                    Ok((next, ScenePlanSaveAction::PrepareRun))
                }
            },
            None => {
                if next.receipt_committed {
                    return Err(
                        MediaServiceError::new(
                            MediaErrorCode::IdempotencyConflict,
                            operation,
                            "Scene Plan 保存 receipt 并发提交后无法重放。",
                        ),
                    );
                }
                next.receipt_exists = false;
                next.stage = ScenePlanSaveStage::AwaitDryRun;
                Ok((next, ScenePlanSaveAction::TryEdits))
            },
        },
        ScenePlanSaveEvent::EditsTried { refusal } => {
            if let Some(error) = refusal {
                return Err(map_scene_plan_error(error, operation));
            }
            next.stage = ScenePlanSaveStage::AwaitRun;
            Ok((next, ScenePlanSaveAction::PrepareRun))
        },
        ScenePlanSaveEvent::RunPrepared => {
            if next.receipt_exists {
                next.stage = ScenePlanSaveStage::Done;
                Ok((next, ScenePlanSaveAction::ReplayReceipt))
            } else {
                next.stage = ScenePlanSaveStage::AwaitEdits;
                Ok((next, ScenePlanSaveAction::ApplyEdits))
            }
        },
        ScenePlanSaveEvent::EditsApplied { refusal } => {
            if let Some(error) = refusal {
                return Err(map_scene_plan_error(error, operation));
            }
            next.stage = ScenePlanSaveStage::AwaitDocument;
            Ok((next, ScenePlanSaveAction::StoreDocument))
        },
        ScenePlanSaveEvent::DocumentStored { artifact_id, content_hash, persisted_matches } => {
            if !persisted_matches {
                return Err(
                    MediaServiceError::new(
                        MediaErrorCode::ArtifactVerificationFailed,
                        operation,
                        "持久化 Scene Plan 编辑结果与写入前文档不一致。",
                    ),
                );
            }
            next.artifact_id = artifact_id;
            next.content_hash = content_hash;
            next.stage = ScenePlanSaveStage::AwaitReceiptCommit;
            Ok((next, ScenePlanSaveAction::CommitReceipt))
        },
        ScenePlanSaveEvent::ReceiptCommitted { created } => {
            if created {
                next.stage = ScenePlanSaveStage::Done;
                Ok((next, ScenePlanSaveAction::Finish))
            } else {
                next.receipt_committed = true;
                next.stage = ScenePlanSaveStage::AwaitReceipt;
                Ok((next, ScenePlanSaveAction::LoadReceipt))
            }
        },
    }
}

} // verus!
