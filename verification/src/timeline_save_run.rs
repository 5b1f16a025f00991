use vstd::prelude::*;
use vstd::utf8::encode_utf8;

use crate::digest::{receipt_id_for, stable_timeline_save_receipt_id};
use crate::media_error::{plain_media_error, MediaErrorCode, MediaOperation, MediaServiceError};
use crate::media_receipts::{check_receipt_binding, receipt_conflict, MediaReceiptFields};
use crate::media_rules::{
    byte_slice, map_timeline_error, media_code_for_timeline, save_request_valid,
    validate_save_timeline_options,
};
use crate::media_types::{SaveTimelineOptions, TimelineEditData};
use crate::storage_error::opt_view;
use crate::text::same_text;
use crate::timeline_document::{
    apply_timeline_edits, edits_applied, edits_refusal, ApplyTimelineEditsOptions, TimelineDocument,
};
use crate::timeline_request::canonical_hash_spec;
use crate::timeline_save::{save_identity_of, save_request_text_of};

verus! {

/// The clock time of an edit's dry run, made before its save run exists.
pub const DRY_RUN_CREATED_AT: &'static str = "1970-01-01T00:00:00Z";

/// Where a timeline save stands: the outside work it waits for.
#[derive(Debug, Clone, Copy, PartialEq, Eq, Structural)]
pub enum TimelineSaveStage {
    AwaitProject,
    AwaitBase,
    AwaitReceipt,
    AwaitRun,
    AwaitDocument,
    AwaitReceiptCommit,
    Done,
}

/// The outside work a timeline save asks for next.
#[derive(Debug, Clone, Copy, PartialEq, Eq, Structural)]
pub enum TimelineSaveAction {
    /// Open the project at the request's path.
    OpenProject,
    /// Load and check the base timeline document and its content hash.
    LoadBase,
    /// Load the receipt stored under the state's receipt identifier.
    LoadReceipt,
    /// Prepare the save run: freeze the inputs, enqueue and lease the job.
    PrepareRun,
    /// The stored receipt answers this request: replay it and record the run.
    ReplayReceipt,
    /// Write, store and read back the state's edited document.
    StoreDocument,
    /// Commit the receipt that binds the key to this save.
    CommitReceipt,
    /// Record the run and report the save.
    Finish,
}

/// What the outside work of a timeline save reported.
#[derive(Debug, Clone, PartialEq, Eq)]
pub enum TimelineSaveEvent {
    ProjectOpened { project_id: String },
    BaseLoaded { document: TimelineDocument, content_hash: String },
    ReceiptLoaded { receipt: Option<MediaReceiptFields> },
    /// The save run was prepared; its execution snapshot was made at `created_at`.
    RunPrepared { created_at: String },
    DocumentStored { artifact_id: String, content_hash: String, persisted_matches: bool },
    ReceiptCommitted { created: bool },
}

/// A timeline save in progress. The base document and the edits are held
/// until the edits are tried on the base; the edit request then made is kept
/// as `edit_request`, and its result as `document`.
pub struct TimelineSaveState {
    pub stage: TimelineSaveStage,
    pub receipt_exists: bool,
    pub receipt_committed: bool,
    pub expected_project_id: String,
    pub run_id: String,
    pub base_artifact_id: String,
    pub change_summary: String,
    pub edits: Vec<TimelineEditData>,
    pub receipt_id: String,
    pub dry_run_created_at: String,
    pub base: Option<TimelineDocument>,
    pub base_content_hash: String,
    pub fingerprint: String,
    pub timeline_id: String,
    pub edit_request: Ghost<Option<ApplyTimelineEditsOptions>>,
    pub document: Option<TimelineDocument>,
    pub artifact_id: String,
    pub content_hash: String,
}

/// The request-fixed fields of two states agree.
pub open spec fn same_save(a: TimelineSaveState, b: TimelineSaveState) -> bool {
    &&& a.expected_project_id@ == b.expected_project_id@
    &&& a.run_id@ == b.run_id@
    &&& a.base_artifact_id@ == b.base_artifact_id@
    &&& a.change_summary@ == b.change_summary@
    &&& a.receipt_id@ == b.receipt_id@
    &&& a.dry_run_created_at@ == b.dry_run_created_at@
}

/// What the base fixed agrees in two states: its hash, the fingerprint and
/// the edited timeline's identifier.
pub open spec fn same_base(a: TimelineSaveState, b: TimelineSaveState) -> bool {
    &&& a.base_content_hash@ == b.base_content_hash@
    &&& a.fingerprint@ == b.fingerprint@
    &&& a.timeline_id@ == b.timeline_id@
}

/// The edit request a save makes of its base, with the given clock time.
pub open spec fn save_edit_request(state: TimelineSaveState, created_at: String) -> ApplyTimelineEditsOptions {
    ApplyTimelineEditsOptions {
        base_timeline_document: state.base.unwrap(),
        edits: state.edits,
        change_summary: state.change_summary,
        new_run_id: state.run_id,
        new_timeline_id: state.timeline_id,
        created_at,
        base_artifact_id: state.base_artifact_id,
    }
}

/// The state's edit request with another clock time.
pub open spec fn at_time(request: ApplyTimelineEditsOptions, created_at: String) -> ApplyTimelineEditsOptions {
    ApplyTimelineEditsOptions { created_at, ..request }
}

/// The event is the report of the work the stage waits for, with what that
/// stage needs held.
pub open spec fn awaited_save(state: TimelineSaveState, event: TimelineSaveEvent) -> bool {
    match (state.stage, event) {
        (TimelineSaveStage::AwaitProject, TimelineSaveEvent::ProjectOpened { .. }) => true,
        (TimelineSaveStage::AwaitBase, TimelineSaveEvent::BaseLoaded { .. }) => true,
        (TimelineSaveStage::AwaitReceipt, TimelineSaveEvent::ReceiptLoaded { .. }) => state.receipt_committed
            || state.base is Some,
        (TimelineSaveStage::AwaitRun, TimelineSaveEvent::RunPrepared { .. }) => state.receipt_exists
            || (state.document matches Some(doc) && state.edit_request@ matches Some(request)
            && edits_refusal(request) is None && edits_applied(request, doc)),
        (TimelineSaveStage::AwaitDocument, TimelineSaveEvent::DocumentStored { .. }) => true,
        (TimelineSaveStage::AwaitReceiptCommit, TimelineSaveEvent::ReceiptCommitted { .. }) => true,
        _ => false,
    }
}

/// A receipt loaded for this save is bound to another request.
pub open spec fn save_receipt_conflict(state: TimelineSaveState, stored: MediaReceiptFields) -> Option<Seq<char>> {
    receipt_conflict(
        stored,
        MediaOperation::SaveTimeline,
        state.run_id@,
        state.base_artifact_id@,
        state.base_content_hash@,
        state.fingerprint@,
    )
}

/// Why the save stops at this event, with the error's code and message.
pub open spec fn save_step_refusal(state: TimelineSaveState, event: TimelineSaveEvent) -> Option<
    (MediaErrorCode, Seq<char>),
> {
    match event {
        TimelineSaveEvent::ProjectOpened { project_id } => if project_id@
            != state.expected_project_id@ {
            Some(
                (
                    MediaErrorCode::CrossProjectReference,
                    "Timeline 保存请求声明的项目身份与实际项目不一致。"@,
                ),
            )
        } else {
            None
        },
        TimelineSaveEvent::BaseLoaded { .. } => None,
        TimelineSaveEvent::ReceiptLoaded { receipt } => match receipt {
            Some(stored) => match save_receipt_conflict(state, stored) {
                Some(message) => Some((MediaErrorCode::IdempotencyConflict, message)),
                None => None,
            },
            None => if state.receipt_committed {
                Some(
                    (MediaErrorCode::IdempotencyConflict, "Timeline 保存 receipt 并发提交后无法重放。"@),
                )
            } else {
                match edits_refusal(save_edit_request(state, state.dry_run_created_at)) {
                    Some((code, message)) => Some((media_code_for_timeline(code), message)),
                    None => None,
                }
            },
        },
        TimelineSaveEvent::RunPrepared { created_at } => if state.receipt_exists {
            None
        } else {
            match edits_refusal(at_time(state.edit_request@.unwrap(), created_at)) {
                Some((code, message)) => Some((media_code_for_timeline(code), message)),
                None => None,
            }
        },
        TimelineSaveEvent::DocumentStored { persisted_matches, .. } => if !persisted_matches {
            Some(
                (
                    MediaErrorCode::ArtifactVerificationFailed,
                    "持久化 Timeline 编辑结果与写入前文档不一致。"@,
                ),
            )
        } else {
            None
        },
        TimelineSaveEvent::ReceiptCommitted { .. } => None,
    }
}

/// How an accepted event moves the save on.
pub open spec fn save_step_taken(
    state: TimelineSaveState,
    event: TimelineSaveEvent,
    next: TimelineSaveState,
    action: TimelineSaveAction,
) -> bool {
    &&& same_save(state, next)
    &&& match event {
        TimelineSaveEvent::ProjectOpened { .. } => {
            &&& next.stage == TimelineSaveStage::AwaitBase
            &&& action == TimelineSaveAction::LoadBase
            &&& next.receipt_committed == state.receipt_committed
            &&& next.edits == state.edits
        },
        TimelineSaveEvent::BaseLoaded { document, content_hash } => {
            &&& next.stage == TimelineSaveStage::AwaitReceipt
            &&& action == TimelineSaveAction::LoadReceipt
            &&& next.receipt_committed == state.receipt_committed
            &&& next.edits == state.edits
            &&& next.base == Some(document)
            &&& next.base_content_hash@ == content_hash@
            &&& next.fingerprint@ == canonical_hash_spec(
                encode_utf8(
                    save_request_text_of(
                        state.expected_project_id@,
                        state.run_id@,
                        state.base_artifact_id@,
                        content_hash@,
                        state.edits@,
                        state.change_summary@,
                    ),
                ),
            )
            &&& next.timeline_id@ == "timeline_edit"@ + "_"@ + byte_slice(
                next.fingerprint@,
                7,
                encode_utf8(next.fingerprint@).len() as int,
            )
        },
        TimelineSaveEvent::ReceiptLoaded { receipt } => {
            &&& same_base(state, next)
            &&& next.receipt_committed == state.receipt_committed
            &&& if state.receipt_committed {
                next.stage == TimelineSaveStage::Done && action == TimelineSaveAction::ReplayReceipt
            } else if receipt is Some {
                &&& next.stage == TimelineSaveStage::AwaitRun
                &&& action == TimelineSaveAction::PrepareRun
                &&& next.receipt_exists
            } else {
                &&& next.stage == TimelineSaveStage::AwaitRun
                &&& action == TimelineSaveAction::PrepareRun
                &&& !next.receipt_exists
                &&& next.edit_request@ == Some(
                    save_edit_request(state, state.dry_run_created_at),
                )
                &&& next.document matches Some(doc) && edits_applied(
                    save_edit_request(state, state.dry_run_created_at),
                    doc,
                )
            }
        },
        TimelineSaveEvent::RunPrepared { created_at } => {
            &&& same_base(state, next)
            &&& next.receipt_committed == state.receipt_committed
            &&& if state.receipt_exists {
                next.stage == TimelineSaveStage::Done && action == TimelineSaveAction::ReplayReceipt
            } else {
                &&& next.stage == TimelineSaveStage::AwaitDocument
                &&& action == TimelineSaveAction::StoreDocument
                &&& next.document matches Some(doc) && edits_applied(
                    at_time(state.edit_request@.unwrap(), created_at),
                    doc,
                )
            }
        },
        TimelineSaveEvent::DocumentStored { artifact_id, content_hash, .. } => {
            &&& same_base(state, next)
            &&& next.stage == TimelineSaveStage::AwaitReceiptCommit
            &&& action == TimelineSaveAction::CommitReceipt
            &&& next.receipt_committed == state.receipt_committed
            &&& next.document == state.document
            &&& next.artifact_id@ == artifact_id@
            &&& next.content_hash@ == content_hash@
        },
        TimelineSaveEvent::ReceiptCommitted { created } => {
            &&& same_base(state, next)
            &&& next.document == state.document
            &&& next.artifact_id@ == state.artifact_id@
            &&& next.content_hash@ == state.content_hash@
            &&& if created {
                next.stage == TimelineSaveStage::Done && action == TimelineSaveAction::Finish
            } else {
                next.stage == TimelineSaveStage::AwaitReceipt && action
                    == TimelineSaveAction::LoadReceipt && next.receipt_committed
            }
        },
    }
}

/// Starts a timeline save: checks the request (see
/// [`validate_save_timeline_options`]) and fixes its receipt; the first work
/// is opening the project.
pub fn start_timeline_save(options: SaveTimelineOptions) -> (result: Result<
    (TimelineSaveState, TimelineSaveAction),
    MediaServiceError,
>)
    ensures
        !save_request_valid(
            options.run_id@,
            options.expected_project_id@,
            options.base_artifact_id@,
            options.edits@.len() as int,
            options.change_summary@,
            options.idempotency_key@,
        ) ==> (result matches Err(error) && plain_media_error(
            error,
            MediaErrorCode::InvalidRequest,
            MediaOperation::SaveTimeline,
            "Timeline 保存请求无效或超过资源上限。"@,
        )),
        save_request_valid(
            options.run_id@,
            options.expected_project_id@,
            options.base_artifact_id@,
            options.edits@.len() as int,
            options.change_summary@,
            options.idempotency_key@,
        ) ==> (result matches Ok((state, action)) && {
            &&& state.stage == TimelineSaveStage::AwaitProject
            &&& action == TimelineSaveAction::OpenProject
            &&& !state.receipt_exists && !state.receipt_committed
            &&& state.expected_project_id@ == options.expected_project_id@
            &&& state.run_id@ == options.run_id@
            &&& state.base_artifact_id@ == options.base_artifact_id@
            &&& state.change_summary@ == options.change_summary@
            &&& state.edits == options.edits
            &&& state.dry_run_created_at@ == DRY_RUN_CREATED_AT@
            &&& state.receipt_id@ == receipt_id_for(
                options.expected_project_id@,
                "save_timeline"@,
                options.idempotency_key@,
            )
            &&& state.base is None && state.document is None
        }),
{
    validate_save_timeline_options(&options)?;
    let receipt_id = stable_timeline_save_receipt_id(
        options.expected_project_id.as_str(),
        options.idempotency_key.as_str(),
    );
    let SaveTimelineOptions { expected_project_id, run_id, base_artifact_id, edits, change_summary, .. } =
        options;
    let state = TimelineSaveState {
        stage: TimelineSaveStage::AwaitProject,
        receipt_exists: false,
        receipt_committed: false,
        expected_project_id,
        run_id,
        base_artifact_id,
        change_summary,
        edits,
        receipt_id,
        dry_run_created_at: DRY_RUN_CREATED_AT.to_owned(),
        base: None,
        base_content_hash: String::new(),
        fingerprint: String::new(),
        timeline_id: String::new(),
        edit_request: Ghost(None),
        document: None,
        artifact_id: String::new(),
        content_hash: String::new(),
    };
    Ok((state, TimelineSaveAction::OpenProject))
}

/// The edits applied at another clock time give the same document with that
/// time, when the time is acceptable; otherwise the request is refused for it.
proof fn lemma_retimed_edits(request: ApplyTimelineEditsOptions, doc: TimelineDocument, created_at: String)
    requires
        edits_applied(request, doc),
        edits_refusal(request) is None,
    ensures
        crate::text::bounded_text_spec(created_at@, 20, 40) ==> edits_refusal(at_time(request, created_at))
            is None && edits_applied(
            at_time(request, created_at),
            TimelineDocument { created_at, ..doc },
        ),
        !crate::text::bounded_text_spec(created_at@, 20, 40) ==> edits_refusal(
            at_time(request, created_at),
        ) == Some(
            (
                crate::timeline::TimelineDomainErrorCode::InvalidRequest,
                "Timeline 编辑请求无效或超过资源上限。"@,
            ),
        ),
{
}

/// Takes the report of the outside work the save waited for and decides: it
/// stops with an error (see [`save_step_refusal`]) or moves on (see
/// [`save_step_taken`]). Before its run exists the edits are tried on the
/// base at [`DRY_RUN_CREATED_AT`]; once the run exists the edited document
/// takes the run's clock time. Where a step after the run is prepared fails,
/// the caller fails that run.
#[verifier::rlimit(80)]
#[verifier::spinoff_prover]
pub fn timeline_save_step(state: TimelineSaveState, event: TimelineSaveEvent) -> (result: Result<
    (TimelineSaveState, TimelineSaveAction),
    MediaServiceError,
>)
    requires
        awaited_save(state, event),
    ensures
        match save_step_refusal(state, event) {
            Some((code, message)) => result matches Err(error) && plain_media_error(
                error,
                code,
                MediaOperation::SaveTimeline,
                message,
            ),
            None => result matches Ok((next, action)) && save_step_taken(state, event, next, action),
        },
{
    let operation = MediaOperation::SaveTimeline;
    let mut next = state;
    match event {
        TimelineSaveEvent::ProjectOpened { project_id } => {
            if !same_text(project_id.as_str(), next.expected_project_id.as_str()) {
                return Err(
                    MediaServiceError::new(
                        MediaErrorCode::CrossProjectReference,
                        operation,
                        "Timeline 保存请求声明的项目身份与实际项目不一致。",
                    ),
                );
            }
            next.stage = TimelineSaveStage::AwaitBase;
            Ok((next, TimelineSaveAction::LoadBase))
        },
        TimelineSaveEvent::BaseLoaded { document, content_hash } => {
            let (fingerprint, timeline_id) = save_identity_of(
                next.expected_project_id.as_str(),
                next.run_id.as_str(),
                next.base_artifact_id.as_str(),
                content_hash.as_str(),
                &next.edits,
                next.change_summary.as_str(),
            );
            next.base = Some(document);
            next.base_content_hash = content_hash;
            next.fingerprint = fingerprint;
            next.timeline_id = timeline_id;
            next.stage = TimelineSaveStage::AwaitReceipt;
            Ok((next, TimelineSaveAction::LoadReceipt))
        },
        TimelineSaveEvent::ReceiptLoaded { receipt } => match receipt {
            Some(stored) => {
                check_receipt_binding(
                    &stored,
                    operation,
                    next.run_id.as_str(),
                    next.base_artifact_id.as_str(),
                    next.base_content_hash.as_str(),
                    next.fingerprint.as_str(),
                )?;
                if next.receipt_committed {
                    next.stage = TimelineSaveStage::Done;
                    Ok((next, TimelineSaveAction::ReplayReceipt))
                } else {
                    next.receipt_exists = true;
                    next.stage = TimelineSaveStage::AwaitRun;
                    Ok((next, TimelineSaveAction::PrepareRun))
                }
            },
            None => {
                if next.receipt_committed {
                    return Err(
                        MediaServiceError::new(
                            MediaErrorCode::IdempotencyConflict,
                            operation,
                            "Timeline 保存 receipt 并发提交后无法重放。",
                        ),
                    );
                }
                let ghost before = next;
                let base = next.base.take().unwrap();
                let mut edits: Vec<TimelineEditData> = Vec::new();
                std::mem::swap(&mut edits, &mut next.edits);
                let request = ApplyTimelineEditsOptions {
                    base_timeline_document: base,
                    edits,
                    change_summary: next.change_summary.clone(),
                    new_run_id: next.run_id.clone(),
                    new_timeline_id: next.timeline_id.clone(),
                    created_at: next.dry_run_created_at.clone(),
                    base_artifact_id: next.base_artifact_id.clone(),
                };
                assert(request == save_edit_request(before, before.dry_run_created_at));
                let ghost made = request;
                match apply_timeline_edits(request) {
                    Ok(document) => {
                        next.document = Some(document);
                        next.edit_request = Ghost(Some(made));
                        next.receipt_exists = false;
                        next.stage = TimelineSaveStage::AwaitRun;
                        Ok((next, TimelineSaveAction::PrepareRun))
                    },
                    Err(error) => Err(map_timeline_error(error, operation)),
                }
            },
        },
        TimelineSaveEvent::RunPrepared { created_at } => {
            if next.receipt_exists {
                next.stage = TimelineSaveStage::Done;
                return Ok((next, TimelineSaveAction::ReplayReceipt));
            }
            let ghost request = next.edit_request@.unwrap();
            let ghost retimed = at_time(request, created_at);
            let mut document = next.document.take().unwrap();
            proof {
                lemma_retimed_edits(request, document, created_at);
            }
            if !crate::text::bounded_text(created_at.as_str(), 20, 40) {
                return Err(
                    MediaServiceError::new(
                        MediaErrorCode::InvalidRequest,
                        operation,
                        "Timeline 编辑请求无效或超过资源上限。",
                    ),
                );
            }
            let ghost dry = document;
            document.created_at = created_at;
            assert(document == TimelineDocument { created_at: document.created_at, ..dry });
            next.document = Some(document);
            next.stage = TimelineSaveStage::AwaitDocument;
            Ok((next, TimelineSaveAction::StoreDocument))
        },
        TimelineSaveEvent::DocumentStored { artifact_id, content_hash, persisted_matches } => {
            if !persisted_matches {
                return Err(
                    MediaServiceError::new(
                        MediaErrorCode::ArtifactVerificationFailed,
                        operation,
                        "持久化 Timeline 编辑结果与写入前文档不一致。",
                    ),
                );
            }
            next.artifact_id = artifact_id;
            next.content_hash = content_hash;
            next.stage = TimelineSaveStage::AwaitReceiptCommit;
            Ok((next, TimelineSaveAction::CommitReceipt))
        },
        TimelineSaveEvent::ReceiptCommitted { created } => {
            if created {
                next.stage = TimelineSaveStage::Done;
                Ok((next, TimelineSaveAction::Finish))
            } else {
                next.receipt_committed = true;
                next.stage = TimelineSaveStage::AwaitReceipt;
                Ok((next, TimelineSaveAction::LoadReceipt))
            }
        },
    }
}

} // verus!
