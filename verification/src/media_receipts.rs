use vstd::prelude::*;

use crate::media_error::{plain_media_error, MediaErrorCode, MediaOperation, MediaServiceError};
use crate::media_read::{artifact_source_ids_match, opt_texts};
use crate::media_rules::invalid_replay_artifact;
use crate::storage_types::ArtifactVerificationStatusData;
use crate::storage_error::opt_view;
use crate::text::{chars_of, same_text};

verus! {

/// What a stored media receipt records of the request it answered, each field
/// where it is a text.
#[derive(Debug, Clone, PartialEq, Eq)]
pub struct MediaReceiptFields {
    pub operation: Option<String>,
    pub run_id: Option<String>,
    pub base_artifact_id: Option<String>,
    pub base_content_hash: Option<String>,
    pub request_fingerprint: Option<String>,
}

/// The name a receipt records for a media operation.
pub open spec fn receipt_operation_name(operation: MediaOperation) -> Seq<char> {
    match operation {
        MediaOperation::ImportAudio => "import_audio"@,
        MediaOperation::ImportCaptions => "import_captions"@,
        MediaOperation::GenerateScenePlan => "generate_scene_plan"@,
        MediaOperation::GenerateTimeline => "generate_timeline"@,
        MediaOperation::SaveScenePlan => "save_scene_plan"@,
        MediaOperation::SaveTimeline => "save_timeline"@,
        MediaOperation::ReadMediaDocument => "read_media_document"@,
    }
}

/// Whether the operation saves an edit of a base document.
pub open spec fn saves_edit(operation: MediaOperation) -> bool {
    operation == MediaOperation::SaveScenePlan || operation == MediaOperation::SaveTimeline
}

/// The message for a receipt bound to another request.
pub open spec fn receipt_conflict_message(operation: MediaOperation) -> Seq<char> {
    match operation {
        MediaOperation::ImportAudio => "幂等键已绑定到不同的 Audio 导入语义。"@,
        MediaOperation::ImportCaptions => "幂等键已绑定到不同的 Captions 导入语义。"@,
        MediaOperation::GenerateScenePlan => "幂等键已绑定到不同的 Scene Plan 生成语义。"@,
        MediaOperation::GenerateTimeline => "幂等键已绑定到不同的 Timeline 生成语义。"@,
        MediaOperation::SaveScenePlan => "幂等键已绑定到不同的 Scene Plan 保存语义。"@,
        _ => "幂等键已绑定到不同的 Timeline 保存语义。"@,
    }
}

/// Why a stored receipt does not answer this request, if it does not: it
/// records another operation or run, for an edit another base artifact or
/// content, or another request fingerprint. Audio imports report a
/// fingerprint mismatch on its own.
pub open spec fn receipt_conflict(
    receipt: MediaReceiptFields,
    operation: MediaOperation,
    run_id: Seq<char>,
    base_artifact_id: Seq<char>,
    base_content_hash: Seq<char>,
    fingerprint: Seq<char>,
) -> Option<Seq<char>> {
    let same_request = opt_view(receipt.operation) == Some(receipt_operation_name(operation))
        && opt_view(receipt.run_id) == Some(run_id) && (saves_edit(operation) ==> (opt_view(
        receipt.base_artifact_id,
    ) == Some(base_artifact_id) && opt_view(receipt.base_content_hash) == Some(base_content_hash)));
    let same_fingerprint = opt_view(receipt.request_fingerprint) == Some(fingerprint);
    if !same_request || (operation != MediaOperation::ImportAudio && !same_fingerprint) {
        Some(receipt_conflict_message(operation))
    } else if !same_fingerprint {
        Some("幂等键已绑定到不同的 Audio 请求指纹。"@)
    } else {
        None
    }
}

fn field_is(field: &Option<String>, value: &str) -> (result: bool)
    ensures
        result == (opt_view(*field) == Some(value@)),
{
    match field {
        Some(text) => same_text(text.as_str(), value),
        None => false,
    }
}

fn conflict_message(operation: MediaOperation) -> (message: &'static str)
    ensures
        message@ == receipt_conflict_message(operation),
{
    match operation {
        MediaOperation::ImportAudio => "幂等键已绑定到不同的 Audio 导入语义。",
        MediaOperation::ImportCaptions => "幂等键已绑定到不同的 Captions 导入语义。",
        MediaOperation::GenerateScenePlan => "幂等键已绑定到不同的 Scene Plan 生成语义。",
        MediaOperation::GenerateTimeline => "幂等键已绑定到不同的 Timeline 生成语义。",
        MediaOperation::SaveScenePlan => "幂等键已绑定到不同的 Scene Plan 保存语义。",
        _ => "幂等键已绑定到不同的 Timeline 保存语义。",
    }
}

fn operation_name(operation: MediaOperation) -> (name: &'static str)
    ensures
        name@ == receipt_operation_name(operation),
{
    match operation {
        MediaOperation::ImportAudio => "import_audio",
        MediaOperation::ImportCaptions => "import_captions",
        MediaOperation::GenerateScenePlan => "generate_scene_plan",
        MediaOperation::GenerateTimeline => "generate_timeline",
        MediaOperation::SaveScenePlan => "save_scene_plan",
        MediaOperation::SaveTimeline => "save_timeline",
        MediaOperation::ReadMediaDocument => "read_media_document",
    }
}

/// Checks that a receipt stored under a request's idempotency key answers
/// this very request; a receipt of another request is an idempotency
/// conflict. `base_artifact_id` and `base_content_hash` are compared for
/// edits only.
pub fn check_receipt_binding(
    receipt: &MediaReceiptFields,
    operation: MediaOperation,
    run_id: &str,
    base_artifact_id: &str,
    base_content_hash: &str,
    fingerprint: &str,
) -> (result: Result<(), MediaServiceError>)
    requires
        operation != MediaOperation::ReadMediaDocument,
    ensures
        match receipt_conflict(
            *receipt,
            operation,
            run_id@,
            base_artifact_id@,
            base_content_hash@,
            fingerprint@,
        ) {
            Some(message) => result matches Err(error) && plain_media_error(
                error,
                MediaErrorCode::IdempotencyConflict,
                operation,
                message,
            ),
            None => result is Ok,
        },
{
    let saves = match operation {
        MediaOperation::SaveScenePlan | MediaOperation::SaveTimeline => true,
        _ => false,
    };
    let same_request = field_is(&receipt.operation, operation_name(operation)) && field_is(
        &receipt.run_id,
        run_id,
    ) && (!saves || (field_is(&receipt.base_artifact_id, base_artifact_id) && field_is(
        &receipt.base_content_hash,
        base_content_hash,
    )));
    let same_fingerprint = field_is(&receipt.request_fingerprint, fingerprint);
    let audio = match operation {
        MediaOperation::ImportAudio => true,
        _ => false,
    };
    if !same_request || (!audio && !same_fingerprint) {
        return Err(
            MediaServiceError::new(
                MediaErrorCode::IdempotencyConflict,
                operation,
                conflict_message(operation),
            ),
        );
    }
    if !same_fingerprint {
        return Err(
            MediaServiceError::new(
                MediaErrorCode::IdempotencyConflict,
                operation,
                "幂等键已绑定到不同的 Audio 请求指纹。",
            ),
        );
    }
    Ok(())
}

/// A required text field of a stored receipt: 1 to 160 bytes.
pub open spec fn receipt_text_valid(value: Option<String>) -> bool {
    match value {
        Some(text) => 0 < text@.len() && vstd::utf8::encode_utf8(text@).len() <= 160,
        None => false,
    }
}

/// Reads a required text field of a stored receipt, refusing the replay when
/// it is missing, empty or longer than 160 bytes.
pub fn receipt_string(value: &Option<String>, operation: MediaOperation) -> (result: Result<
    String,
    MediaServiceError,
>)
    ensures
        result is Ok <==> receipt_text_valid(*value),
        result matches Ok(text) ==> opt_view(*value) == Some(text@),
        result matches Err(error) ==> plain_media_error(
            error,
            MediaErrorCode::ArtifactVerificationFailed,
            operation,
            "媒体幂等 receipt 指向的不可变 Artifact 无法通过校验。"@,
        ),
{
    match value {
        Some(text) => {
            let raw: &str = text.as_str();
            let bytes = raw.as_bytes().len();
            if chars_of(text.as_str()).len() == 0 || bytes > 160 {
                return Err(invalid_replay_artifact(operation));
            }
            Ok(text.clone())
        },
        None => Err(invalid_replay_artifact(operation)),
    }
}

/// What the index and a content verification say of the artifact a receipt
/// points to, each metadata field where it is a text.
#[derive(Debug, Clone, PartialEq, Eq)]
pub struct ReplayedArtifactFacts {
    pub owner_project_id: String,
    pub project_id: Option<String>,
    pub stage_id: Option<String>,
    pub run_id: Option<String>,
    pub kind: Option<String>,
    pub content_hash: Option<String>,
    pub source_artifact_ids: Option<Vec<Option<String>>>,
    pub verification_status: ArtifactVerificationStatusData,
    pub verified_content_hash: String,
}

/// The sources an artifact lists, where it lists them.
pub open spec fn listed_sources(ids: Option<Vec<Option<String>>>) -> Option<Seq<Option<Seq<char>>>> {
    match ids {
        Some(list) => Some(opt_texts(list@)),
        None => None,
    }
}

/// The artifact a receipt points to is the one the replayed request made: of
/// the project, of the expected stage and kind, of the request's run, with the
/// receipt's content hash, made from exactly the expected sources, and its
/// content verified against that hash.
pub open spec fn replayed_artifact_valid(
    facts: ReplayedArtifactFacts,
    project_id: Seq<char>,
    stage_and_kind: Seq<char>,
    run_id: Seq<char>,
    content_hash: Seq<char>,
    sources: Seq<String>,
) -> bool {
    &&& facts.owner_project_id@ == project_id
    &&& opt_view(facts.project_id) == Some(project_id)
    &&& opt_view(facts.stage_id) == Some(stage_and_kind)
    &&& opt_view(facts.run_id) == Some(run_id)
    &&& opt_view(facts.kind) == Some(stage_and_kind)
    &&& opt_view(facts.content_hash) == Some(content_hash)
    &&& listed_sources(facts.source_artifact_ids) == Some(sources.map_values(|e: String| Some(e@)))
    &&& facts.verification_status == ArtifactVerificationStatusData::Verified
    &&& facts.verified_content_hash@ == content_hash
}

/// Refuses the replay of a receipt whose artifact is not the one the
/// replayed request made (see [`replayed_artifact_valid`]).
pub fn check_replayed_artifact(
    facts: &ReplayedArtifactFacts,
    expected_project_id: &str,
    stage_and_kind: &str,
    run_id: &str,
    content_hash: &str,
    sources: &[String],
    operation: MediaOperation,
) -> (result: Result<(), MediaServiceError>)
    ensures
        result is Ok <==> replayed_artifact_valid(
            *facts,
            expected_project_id@,
            stage_and_kind@,
            run_id@,
            content_hash@,
            sources@,
        ),
        result matches Err(error) ==> plain_media_error(
            error,
            MediaErrorCode::ArtifactVerificationFailed,
            operation,
            "媒体幂等 receipt 指向的不可变 Artifact 无法通过校验。"@,
        ),
{
    let listed = match &facts.source_artifact_ids {
        Some(ids) => artifact_source_ids_match(Some(ids.as_slice()), sources),
        None => false,
    };
    let verified = match facts.verification_status {
        ArtifactVerificationStatusData::Verified => true,
        _ => false,
    };
    if !same_text(facts.owner_project_id.as_str(), expected_project_id) || !field_is(
        &facts.project_id,
        expected_project_id,
    ) || !field_is(&facts.stage_id, stage_and_kind) || !field_is(&facts.run_id, run_id) || !field_is(
        &facts.kind,
        stage_and_kind,
    ) || !field_is(&facts.content_hash, content_hash) || !listed || !verified || !same_text(
        facts.verified_content_hash.as_str(),
        content_hash,
    ) {
        return Err(invalid_replay_artifact(operation));
    }
    Ok(())
}

} // verus!
