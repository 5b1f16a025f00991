use vstd::prelude::*;

use crate::content_hash::content_hash_of;
use crate::digest::content_digest;
use crate::media_error::{MediaErrorCode, MediaOperation, MediaServiceError};
use crate::media_types::FrozenArtifactInputData;
use crate::storage_error::opt_view;
use crate::storage_rules::{decimal, push_decimal};
use crate::storage_types::IndexedJobStatusData;
use crate::text::same_text;

verus! {

/// The most bytes of a base artifact's metadata a media save reads.
pub const MAX_SAVE_BASE_METADATA_BYTES: u64 = 16 * 1024 * 1024;

/// What the store reports of an artifact a media save freezes: its owner,
/// whether its content is there, and its stage, run and content hash where
/// they are strings.
#[derive(Debug, Clone, PartialEq, Eq)]
pub struct SaveArtifactFacts {
    pub owner_project_id: String,
    pub content_available: bool,
    pub stage_id: Option<String>,
    pub run_id: Option<String>,
    pub content_hash: Option<String>,
}

/// The error a media save reports about one artifact, with its context.
pub open spec fn save_context_error(
    error: MediaServiceError,
    code: MediaErrorCode,
    operation: MediaOperation,
    message: Seq<char>,
    project_id: Seq<char>,
    stage_id: Seq<char>,
    run_id: Seq<char>,
    artifact_id: Seq<char>,
) -> bool {
    &&& error.code == code
    &&& error.operation == operation
    &&& error.message@ == message
    &&& opt_view(error.project_id) == Some(project_id)
    &&& opt_view(error.stage_id) == Some(stage_id)
    &&& opt_view(error.run_id) == Some(run_id)
    &&& opt_view(error.artifact_id) == Some(artifact_id)
}

/// Only scene plans and timelines are saved as edits.
pub fn check_save_stage(stage_id: &str, operation: MediaOperation) -> (result: Result<(), MediaServiceError>)
    ensures
        result is Ok <==> (stage_id@ == "scene_plan"@ || stage_id@ == "timeline"@),
        result matches Err(error) ==> error.code == MediaErrorCode::InvalidRequest && error.operation
            == operation && error.message@ == "媒体编辑保存只支持 scene_plan 或 timeline 阶段。"@,
{
    if same_text(stage_id, "scene_plan") || same_text(stage_id, "timeline") {
        Ok(())
    } else {
        Err(
            MediaServiceError::new(
                MediaErrorCode::InvalidRequest,
                operation,
                "媒体编辑保存只支持 scene_plan 或 timeline 阶段。",
            ),
        )
    }
}

/// The base artifact of an edit can be frozen: it belongs to the project,
/// its content is there, and it is of the saved stage.
pub open spec fn save_base_acceptable(base: SaveArtifactFacts, project_id: Seq<char>, stage_id: Seq<char>) -> bool {
    &&& base.owner_project_id@ == project_id
    &&& base.content_available
    &&& opt_view(base.stage_id) == Some(stage_id)
}

/// Checks the base artifact of an edit (see [`save_base_acceptable`]);
/// `base_run_id` is the run the base artifact records.
pub fn check_save_base(
    base: &SaveArtifactFacts,
    project_id: &str,
    stage_id: &str,
    base_run_id: &str,
    base_artifact_id: &str,
    operation: MediaOperation,
) -> (result: Result<(), MediaServiceError>)
    ensures
        result is Ok <==> save_base_acceptable(*base, project_id@, stage_id@),
        result matches Err(error) ==> save_context_error(
            error,
            MediaErrorCode::InputReferenceMismatch,
            operation,
            "媒体编辑基础 Artifact 无法冻结到执行快照。"@,
            project_id@,
            stage_id@,
            base_run_id@,
            base_artifact_id@,
        ),
{
    let same_stage = match &base.stage_id {
        Some(stage) => same_text(stage.as_str(), stage_id),
        None => false,
    };
    if same_text(base.owner_project_id.as_str(), project_id) && base.content_available && same_stage {
        Ok(())
    } else {
        Err(
            MediaServiceError::new(
                MediaErrorCode::InputReferenceMismatch,
                operation,
                "媒体编辑基础 Artifact 无法冻结到执行快照。",
            ).with_safe_context(Some(project_id), Some(stage_id), Some(base_run_id), Some(base_artifact_id)),
        )
    }
}

/// The content hash the frozen reference to the base artifact's metadata
/// records, within the synchronous read limit.
pub fn base_metadata_hash(metadata: &[u8], operation: MediaOperation) -> (result: Result<
    String,
    MediaServiceError,
>)
    ensures
        metadata@.len() <= MAX_SAVE_BASE_METADATA_BYTES ==> (result matches Ok(hash) && hash@
            == content_hash_of(metadata@)),
        metadata@.len() > MAX_SAVE_BASE_METADATA_BYTES ==> (result matches Err(error) && error.code
            == MediaErrorCode::ResourceLimitExceeded && error.operation == operation
            && error.message@ == "媒体编辑基础 Artifact 元数据超过同步读取上限。"@),
{
    if metadata.len() as u64 > MAX_SAVE_BASE_METADATA_BYTES {
        return Err(
            MediaServiceError::new(
                MediaErrorCode::ResourceLimitExceeded,
                operation,
                "媒体编辑基础 Artifact 元数据超过同步读取上限。",
            ),
        );
    }
    Ok(content_digest(metadata))
}

/// A frozen input of an edit is the approved artifact the store reports: of
/// the project, with its content, of the input's stage and run, with the
/// input's content hash.
pub open spec fn save_input_acceptable(
    read: SaveArtifactFacts,
    input: FrozenArtifactInputData,
    project_id: Seq<char>,
) -> bool {
    &&& read.owner_project_id@ == project_id
    &&& read.content_available
    &&& opt_view(read.stage_id) == Some(input.stage_id@)
    &&& opt_view(read.run_id) == Some(input.run_id@)
    &&& opt_view(read.content_hash) == Some(input.content_hash@)
}

fn field_is(field: &Option<String>, value: &str) -> (result: bool)
    ensures
        result == (opt_view(*field) == Some(value@)),
{
    match field {
        Some(text) => same_text(text.as_str(), value),
        None => false,
    }
}

/// Checks one frozen input of an edit against the store (see
/// [`save_input_acceptable`]).
pub fn check_save_input(
    read: &SaveArtifactFacts,
    input: &FrozenArtifactInputData,
    project_id: &str,
    stage_id: &str,
    run_id: &str,
    operation: MediaOperation,
) -> (result: Result<(), MediaServiceError>)
    ensures
        result is Ok <==> save_input_acceptable(*read, *input, project_id@),
        result matches Err(error) ==> save_context_error(
            error,
            MediaErrorCode::InputReferenceMismatch,
            operation,
            "媒体编辑保存输入无法转换为已审核 Workflow Artifact 引用。"@,
            project_id@,
            stage_id@,
            run_id@,
            input.artifact_id@,
        ),
{
    if same_text(read.owner_project_id.as_str(), project_id) && read.content_available && field_is(
        &read.stage_id,
        input.stage_id.as_str(),
    ) && field_is(&read.run_id, input.run_id.as_str()) && field_is(
        &read.content_hash,
        input.content_hash.as_str(),
    ) {
        Ok(())
    } else {
        Err(
            MediaServiceError::new(
                MediaErrorCode::InputReferenceMismatch,
                operation,
                "媒体编辑保存输入无法转换为已审核 Workflow Artifact 引用。",
            ).with_safe_context(
                Some(project_id),
                Some(stage_id),
                Some(run_id),
                Some(input.artifact_id.as_str()),
            ),
        )
    }
}

/// The worker that runs media edit jobs.
pub const MEDIA_EDITOR_WORKER: &'static str = "narracut_media_editor";

/// What a media save does about its job's lease, given the job's state.
#[derive(Debug, Clone, PartialEq, Eq)]
pub enum SaveLeaseDecision {
    /// The job waits: claim it for the media editor.
    Claim,
    /// The media editor already runs the job under this lease.
    Keep(String),
    /// The job is done: no lease is needed.
    NoLease,
}

/// The lease decision for a job in `status`, whose current lease is
/// `lease` (its worker and lease identifier): a waiting job is claimed, a job
/// the media editor runs keeps its lease, a finished job needs none; a job
/// another worker runs, or one that failed or was canceled, stops the save.
pub open spec fn save_lease_outcome(status: IndexedJobStatusData, lease: Option<(Seq<char>, Seq<char>)>) -> Result<
    Option<Seq<char>>,
    Seq<char>,
> {
    match status {
        IndexedJobStatusData::Queued | IndexedJobStatusData::Retrying => Ok(None),
        IndexedJobStatusData::Running => match lease {
            Some((worker, lease_id)) if worker == MEDIA_EDITOR_WORKER@ => Ok(Some(lease_id)),
            _ => Err("媒体编辑 Job 正由其他 worker 执行，请稍后按同一幂等键重试。"@),
        },
        IndexedJobStatusData::Succeeded => Ok(None),
        _ => Err("媒体编辑 Job 已处于不可重放的终态。"@),
    }
}

/// Decides a media save's lease (see [`save_lease_outcome`]); a refusal is a
/// storage-unavailable error.
pub fn media_save_lease(
    status: IndexedJobStatusData,
    lease: Option<(String, String)>,
    operation: MediaOperation,
) -> (result: Result<SaveLeaseDecision, MediaServiceError>)
    ensures
        match save_lease_outcome(
            status,
            match lease {
                Some((worker, lease_id)) => Some((worker@, lease_id@)),
                None => None,
            },
        ) {
            Ok(kept) => result matches Ok(decision) && match decision {
                SaveLeaseDecision::Claim => kept is None && (status == IndexedJobStatusData::Queued
                    || status == IndexedJobStatusData::Retrying),
                SaveLeaseDecision::Keep(lease_id) => kept == Some(lease_id@),
                SaveLeaseDecision::NoLease => kept is None && status
                    == IndexedJobStatusData::Succeeded,
            },
            Err(message) => result matches Err(error) && error.code
                == MediaErrorCode::StorageUnavailable && error.operation == operation
                && error.message@ == message,
        },
{
    match status {
        IndexedJobStatusData::Queued | IndexedJobStatusData::Retrying => Ok(SaveLeaseDecision::Claim),
        IndexedJobStatusData::Running => match lease {
            Some((worker, lease_id)) => {
                if same_text(worker.as_str(), MEDIA_EDITOR_WORKER) {
                    Ok(SaveLeaseDecision::Keep(lease_id))
                } else {
                    Err(
                        MediaServiceError::new(
                            MediaErrorCode::StorageUnavailable,
                            operation,
                            "媒体编辑 Job 正由其他 worker 执行，请稍后按同一幂等键重试。",
                        ),
                    )
                }
            },
            None => Err(
                MediaServiceError::new(
                    MediaErrorCode::StorageUnavailable,
                    operation,
                    "媒体编辑 Job 正由其他 worker 执行，请稍后按同一幂等键重试。",
                ),
            ),
        },
        IndexedJobStatusData::Succeeded => Ok(SaveLeaseDecision::NoLease),
        _ => Err(
            MediaServiceError::new(
                MediaErrorCode::StorageUnavailable,
                operation,
                "媒体编辑 Job 已处于不可重放的终态。",
            ),
        ),
    }
}

/// The lease a claim gave, or the error when the job could not be claimed.
pub fn claimed_lease(claimed: Option<String>, operation: MediaOperation) -> (result: Result<
    String,
    MediaServiceError,
>)
    ensures
        match claimed {
            Some(lease_id) => result matches Ok(kept) && kept@ == lease_id@,
            None => result matches Err(error) && error.code == MediaErrorCode::StorageUnavailable
                && error.operation == operation && error.message@
                == "媒体编辑 Job 暂时无法领取，请稍后按同一幂等键重试。"@,
        },
{
    match claimed {
        Some(lease_id) => Ok(lease_id),
        None => Err(
            MediaServiceError::new(
                MediaErrorCode::StorageUnavailable,
                operation,
                "媒体编辑 Job 暂时无法领取，请稍后按同一幂等键重试。",
            ),
        ),
    }
}

/// The frozen reference to an edit's base: the base artifact's kind, the
/// content hash of its metadata, its identifier and its traceability sets.
#[derive(Debug, Clone, PartialEq, Eq)]
pub struct BaseRefFields {
    pub kind: String,
    pub metadata_hash: String,
    pub artifact_id: String,
    pub claim_ids: Vec<String>,
    pub evidence_refs: Vec<String>,
}

/// A frozen input of an edit with the kind the store records for it.
#[derive(Debug, Clone, PartialEq, Eq)]
pub struct SaveInputFields {
    pub kind: String,
    pub input: FrozenArtifactInputData,
}

/// One input reference of a media save job: the base as a project document,
/// or an approved artifact.
#[derive(Debug, Clone, PartialEq, Eq)]
pub enum MediaInputRef {
    ProjectDocument {
        ref_id: String,
        kind: String,
        content_hash: String,
        uri: String,
        claim_ids: Vec<String>,
        evidence_refs: Vec<String>,
    },
    Artifact {
        ref_id: String,
        kind: String,
        content_hash: String,
        artifact_id: String,
        source_run_id: String,
        review_record_id: String,
        claim_ids: Vec<String>,
        evidence_refs: Vec<String>,
    },
}

/// The reference identifier of the `index`th input of a stage's save.
pub open spec fn input_ref_id(stage_id: Seq<char>, index: nat) -> Seq<char> {
    "ref_save_"@ + stage_id + "_"@ + decimal(index)
}

/// The base reference is the base's metadata document in the project.
pub open spec fn base_ref_matches(reference: MediaInputRef, stage_id: Seq<char>, base: BaseRefFields) -> bool {
    match reference {
        MediaInputRef::ProjectDocument { ref_id, kind, content_hash, uri, claim_ids, evidence_refs } => {
            &&& ref_id@ == "ref_save_"@ + stage_id + "_base"@
            &&& kind@ == base.kind@
            &&& content_hash@ == base.metadata_hash@
            &&& uri@ == "project://artifacts/metadata/"@ + base.artifact_id@ + ".json"@
            &&& claim_ids@ == base.claim_ids@
            &&& evidence_refs@ == base.evidence_refs@
        },
        _ => false,
    }
}

/// An input reference is the approved artifact of the `index`th input.
pub open spec fn input_ref_matches(
    reference: MediaInputRef,
    stage_id: Seq<char>,
    index: nat,
    fields: SaveInputFields,
) -> bool {
    match reference {
        MediaInputRef::Artifact {
            ref_id,
            kind,
            content_hash,
            artifact_id,
            source_run_id,
            review_record_id,
            claim_ids,
            evidence_refs,
        } => {
            &&& ref_id@ == input_ref_id(stage_id, index)
            &&& kind@ == fields.kind@
            &&& content_hash@ == fields.input.content_hash@
            &&& artifact_id@ == fields.input.artifact_id@
            &&& source_run_id@ == fields.input.run_id@
            &&& review_record_id@ == fields.input.review_record_id@
            &&& claim_ids@ == fields.input.claim_ids@
            &&& evidence_refs@ == fields.input.evidence_refs@
        },
        _ => false,
    }
}

/// The input references of a media save job: the base first, then each
/// frozen input in order.
pub fn media_save_input_refs(stage_id: &str, base: &BaseRefFields, inputs: &[SaveInputFields]) -> (refs:
    Vec<MediaInputRef>)
    requires
        inputs@.len() < u64::MAX,
    ensures
        refs@.len() == inputs@.len() + 1,
        base_ref_matches(refs@[0], stage_id@, *base),
        forall|i: int|
            0 <= i < inputs@.len() ==> input_ref_matches(
                #[trigger] refs@[i + 1],
                stage_id@,
                i as nat,
                inputs@[i],
            ),
{
    let mut base_id = String::from_str("ref_save_");
    base_id.append(stage_id);
    base_id.append("_base");
    let mut uri = String::from_str("project://artifacts/metadata/");
    uri.append(base.artifact_id.as_str());
    uri.append(".json");
    let mut refs: Vec<MediaInputRef> = Vec::new();
    refs.push(
        MediaInputRef::ProjectDocument {
            ref_id: base_id,
            kind: base.kind.clone(),
            content_hash: base.metadata_hash.clone(),
            uri,
            claim_ids: clone_texts(&base.claim_ids),
            evidence_refs: clone_texts(&base.evidence_refs),
        },
    );
    let mut i: usize = 0;
    while i < inputs.len()
        invariant
            0 <= i <= inputs@.len(),
            inputs@.len() < u64::MAX,
            refs@.len() == i + 1,
            base_ref_matches(refs@[0], stage_id@, *base),
            forall|k: int|
                0 <= k < i ==> input_ref_matches(
                    #[trigger] refs@[k + 1],
                    stage_id@,
                    k as nat,
                    inputs@[k],
                ),
        decreases inputs@.len() - i,
    {
        let fields = &inputs[i];
        let mut ref_id = String::from_str("ref_save_");
        ref_id.append(stage_id);
        ref_id.append("_");
        push_decimal(&mut ref_id, i as u64);
        refs.push(
            MediaInputRef::Artifact {
                ref_id,
                kind: fields.kind.clone(),
                content_hash: fields.input.content_hash.clone(),
                artifact_id: fields.input.artifact_id.clone(),
                source_run_id: fields.input.run_id.clone(),
                review_record_id: fields.input.review_record_id.clone(),
                claim_ids: clone_texts(&fields.input.claim_ids),
                evidence_refs: clone_texts(&fields.input.evidence_refs),
            },
        );
        i = i + 1;
    }
    refs
}

fn clone_texts(values: &Vec<String>) -> (copy: Vec<String>)
    ensures
        copy@ == values@,
{
    let mut copy: Vec<String> = Vec::new();
    let mut i: usize = 0;
    while i < values.len()
        invariant
            0 <= i <= values@.len(),
            copy@ == values@.take(i as int),
        decreases values@.len() - i,
    {
        copy.push(values[i].clone());
        assert(copy@ =~= values@.take(i + 1));
        i = i + 1;
    }
    assert(values@.take(values@.len() as int) =~= values@);
    copy
}

} // verus!
