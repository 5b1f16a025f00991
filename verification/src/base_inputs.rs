use vstd::prelude::*;

use crate::identifiers::{
    artifact_ref_is_valid, artifact_ref_spec, is_sha256, run_id_is_valid, valid_portable_id,
    valid_string_set,
};
use crate::media_error::{plain_media_error, MediaErrorCode, MediaOperation, MediaServiceError};
use crate::media_read::{document_input_valid, input_of_record, InputRefRecord};
use crate::media_types::FrozenArtifactInputData;
use crate::storage_error::opt_view;
use crate::text::same_text;
use crate::timeline_assembly::copy_frozen_input;

verus! {

/// The kind of saved document whose frozen inputs are read back before it is
/// edited.
#[derive(Debug, Clone, Copy, PartialEq, Eq, Structural)]
pub enum BaseDocumentKind {
    Timeline,
    ScenePlan,
}

/// A stage a timeline is built from.
pub open spec fn timeline_stage(stage_id: Seq<char>) -> bool {
    stage_id == "audio"@ || stage_id == "captions"@ || stage_id == "scene_plan"@
}

/// The number of input references a base document of `kind` must hold:
/// exactly three for a timeline, 1 to 32 for a scene plan.
pub open spec fn base_count_ok(kind: BaseDocumentKind, n: int) -> bool {
    match kind {
        BaseDocumentKind::Timeline => n == 3,
        BaseDocumentKind::ScenePlan => 0 < n <= 32,
    }
}

/// The message for a wrong number of input references.
pub open spec fn base_count_message(kind: BaseDocumentKind) -> Seq<char> {
    match kind {
        BaseDocumentKind::Timeline => "基础 Timeline 必须包含且只包含 audio、captions、scene_plan 三个冻结输入。"@,
        BaseDocumentKind::ScenePlan => "基础 Scene Plan inputRefs 缺失或超过上限。"@,
    }
}

/// The message for a reference of another project.
pub open spec fn base_cross_message(kind: BaseDocumentKind) -> Seq<char> {
    match kind {
        BaseDocumentKind::Timeline => "基础 Timeline inputRefs 包含其他项目引用。"@,
        BaseDocumentKind::ScenePlan => "基础 Scene Plan inputRefs 包含其他项目引用。"@,
    }
}

/// The message for an invalid or repeated reference.
pub open spec fn base_invalid_message(kind: BaseDocumentKind) -> Seq<char> {
    match kind {
        BaseDocumentKind::Timeline => "基础 Timeline inputRefs 的阶段、身份、哈希或追溯字段无效。"@,
        BaseDocumentKind::ScenePlan => "基础 Scene Plan inputRefs 身份、哈希或追溯字段无效。"@,
    }
}

/// A frozen input acceptable in a base document of `kind`: valid, and for a
/// timeline of one of its three stages.
pub open spec fn base_input_valid(kind: BaseDocumentKind, input: FrozenArtifactInputData) -> bool {
    &&& document_input_valid(input)
    &&& (kind == BaseDocumentKind::Timeline ==> timeline_stage(input.stage_id@))
}

/// Reference `k` repeats an earlier reference's artifact, or for a timeline
/// its stage.
pub open spec fn base_repeats(kind: BaseDocumentKind, records: Seq<InputRefRecord>, k: int) -> bool {
    exists|j: int| 0 <= j < k && clashes(kind, (#[trigger] records[j]).input.unwrap(), records[k].input.unwrap())
}

/// An earlier input clashes with a later one: the same artifact, or for a
/// timeline the same stage.
pub open spec fn clashes(kind: BaseDocumentKind, earlier: FrozenArtifactInputData, input: FrozenArtifactInputData) -> bool {
    ||| earlier.artifact_id@ == input.artifact_id@
    ||| (kind == BaseDocumentKind::Timeline && earlier.stage_id@ == input.stage_id@)
}

/// Why reference `k` of a base document is refused given the earlier ones.
pub open spec fn base_record_refusal(
    kind: BaseDocumentKind,
    records: Seq<InputRefRecord>,
    project_id: Seq<char>,
    k: int,
) -> Option<(MediaErrorCode, Seq<char>)> {
    let record = records[k];
    if opt_view(record.project_id) != Some(project_id) {
        Some((MediaErrorCode::CrossProjectReference, base_cross_message(kind)))
    } else if record.input is None {
        Some((MediaErrorCode::InputReferenceMismatch, "媒体文档中的冻结输入格式无效。"@))
    } else if !base_input_valid(kind, record.input.unwrap()) || base_repeats(kind, records, k) {
        Some((MediaErrorCode::InputReferenceMismatch, base_invalid_message(kind)))
    } else {
        None
    }
}

/// The first refusal among the first `n` references.
pub open spec fn base_records_refusal(
    kind: BaseDocumentKind,
    records: Seq<InputRefRecord>,
    project_id: Seq<char>,
    n: int,
) -> Option<(MediaErrorCode, Seq<char>)>
    decreases n,
{
    if n <= 0 {
        None
    } else if base_records_refusal(kind, records, project_id, n - 1) is Some {
        base_records_refusal(kind, records, project_id, n - 1)
    } else {
        base_record_refusal(kind, records, project_id, n - 1)
    }
}

/// Why the input references of a base document are refused, if they are.
pub open spec fn base_inputs_refusal(
    kind: BaseDocumentKind,
    records: Seq<InputRefRecord>,
    project_id: Seq<char>,
) -> Option<(MediaErrorCode, Seq<char>)> {
    if !base_count_ok(kind, records.len() as int) {
        Some((MediaErrorCode::InputReferenceMismatch, base_count_message(kind)))
    } else {
        base_records_refusal(kind, records, project_id, records.len() as int)
    }
}

proof fn lemma_base_refusal_stays(
    kind: BaseDocumentKind,
    records: Seq<InputRefRecord>,
    project_id: Seq<char>,
    m: int,
    n: int,
)
    requires
        m <= n,
        base_records_refusal(kind, records, project_id, m) is Some,
    ensures
        base_records_refusal(kind, records, project_id, n) == base_records_refusal(
            kind,
            records,
            project_id,
            m,
        ),
    decreases n - m,
{
    if m < n {
        lemma_base_refusal_stays(kind, records, project_id, m, n - 1);
    }
}

fn base_error(code: MediaErrorCode, operation: MediaOperation, kind: BaseDocumentKind, which: u8) -> (error:
    MediaServiceError)
    requires
        which < 3,
    ensures
        plain_media_error(
            error,
            code,
            operation,
            if which == 0 {
                base_count_message(kind)
            } else if which == 1 {
                base_cross_message(kind)
            } else {
                base_invalid_message(kind)
            },
        ),
{
    let message = match (kind, which) {
        (BaseDocumentKind::Timeline, 0) => "基础 Timeline 必须包含且只包含 audio、captions、scene_plan 三个冻结输入。",
        (BaseDocumentKind::ScenePlan, 0) => "基础 Scene Plan inputRefs 缺失或超过上限。",
        (BaseDocumentKind::Timeline, 1) => "基础 Timeline inputRefs 包含其他项目引用。",
        (BaseDocumentKind::ScenePlan, 1) => "基础 Scene Plan inputRefs 包含其他项目引用。",
        (BaseDocumentKind::Timeline, _) => "基础 Timeline inputRefs 的阶段、身份、哈希或追溯字段无效。",
        (BaseDocumentKind::ScenePlan, _) => "基础 Scene Plan inputRefs 身份、哈希或追溯字段无效。",
    };
    MediaServiceError::new(code, operation, message)
}

/// Three accepted timeline references, of distinct stages of the three a
/// timeline is built from, name every one of those stages.
proof fn lemma_timeline_stages_covered(
    records: Seq<InputRefRecord>,
    project_id: Seq<char>,
    inputs: Seq<FrozenArtifactInputData>,
)
    requires
        records.len() == 3,
        inputs.len() == 3,
        base_records_refusal(BaseDocumentKind::Timeline, records, project_id, 3) is None,
        forall|q: int| 0 <= q < 3 ==> #[trigger] input_of_record(records[q], inputs[q]),
    ensures
        names_stage(inputs, "audio"@),
        names_stage(inputs, "captions"@),
        names_stage(inputs, "scene_plan"@),
{
    let kind = BaseDocumentKind::Timeline;
    reveal_with_fuel(base_records_refusal, 4);
    assert(base_records_refusal(kind, records, project_id, 1) is None);
    assert(base_records_refusal(kind, records, project_id, 2) is None);
    assert(input_of_record(records[0], inputs[0]));
    assert(input_of_record(records[1], inputs[1]));
    assert(input_of_record(records[2], inputs[2]));
    let s0 = inputs[0].stage_id@;
    let s1 = inputs[1].stage_id@;
    let s2 = inputs[2].stage_id@;
    assert(timeline_stage(s0) && timeline_stage(s1) && timeline_stage(s2));
    assert(!clashes(kind, records[0].input.unwrap(), records[1].input.unwrap()));
    assert(!clashes(kind, records[0].input.unwrap(), records[2].input.unwrap()));
    assert(!clashes(kind, records[1].input.unwrap(), records[2].input.unwrap()));
    assert(s0 != s1 && s0 != s2 && s1 != s2);
    assert(names_stage(inputs, s0) && names_stage(inputs, s1) && names_stage(inputs, s2));
}

fn timeline_stage_exec(stage_id: &str) -> (result: bool)
    ensures
        result == timeline_stage(stage_id@),
{
    same_text(stage_id, "audio") || same_text(stage_id, "captions") || same_text(stage_id, "scene_plan")
}

/// Some input is of `stage`.
pub open spec fn names_stage(inputs: Seq<FrozenArtifactInputData>, stage: Seq<char>) -> bool {
    exists|k: int| 0 <= k < inputs.len() && (#[trigger] inputs[k]).stage_id@ == stage
}

/// The frozen inputs a saved base document of `kind` names: a timeline names
/// exactly its audio, captions and scene plan inputs, each once; a scene plan
/// names 1 to 32. All must be of the project, well-formed, valid and of
/// distinct artifacts.
pub fn base_document_frozen_inputs(
    kind: BaseDocumentKind,
    records: &[InputRefRecord],
    expected_project_id: &str,
    operation: MediaOperation,
) -> (result: Result<Vec<FrozenArtifactInputData>, MediaServiceError>)
    ensures
        match base_inputs_refusal(kind, records@, expected_project_id@) {
            Some((code, message)) => result matches Err(error) && plain_media_error(
                error,
                code,
                operation,
                message,
            ),
            None => result matches Ok(inputs) && inputs@.len() == records@.len() && forall|k: int|
                0 <= k < records@.len() ==> #[trigger] input_of_record(records@[k], inputs@[k]),
        },
        kind == BaseDocumentKind::Timeline ==> (result matches Ok(inputs) ==> {
            &&& names_stage(inputs@, "audio"@)
            &&& names_stage(inputs@, "captions"@)
            &&& names_stage(inputs@, "scene_plan"@)
        }),
{
    let count_ok = match kind {
        BaseDocumentKind::Timeline => records.len() == 3,
        BaseDocumentKind::ScenePlan => records.len() > 0 && records.len() <= 32,
    };
    if !count_ok {
        return Err(base_error(MediaErrorCode::InputReferenceMismatch, operation, kind, 0));
    }
    let mut inputs: Vec<FrozenArtifactInputData> = Vec::new();
    let mut k: usize = 0;
    while k < records.len()
        invariant
            base_count_ok(kind, records@.len() as int),
            0 <= k <= records@.len(),
            base_records_refusal(kind, records@, expected_project_id@, k as int) is None,
            inputs@.len() == k,
            forall|q: int| 0 <= q < k ==> #[trigger] input_of_record(records@[q], inputs@[q]),
        decreases records@.len() - k,
    {
        proof {
            reveal_strlit("audio");
            reveal_strlit("captions");
            reveal_strlit("scene_plan");
        }
        let record = &records[k];
        let same_project = match &record.project_id {
            Some(project) => same_text(project.as_str(), expected_project_id),
            None => false,
        };
        if !same_project {
            proof {
                lemma_base_refusal_stays(kind, records@, expected_project_id@, k + 1, records@.len() as int);
            }
            return Err(base_error(MediaErrorCode::CrossProjectReference, operation, kind, 1));
        }
        let input = match &record.input {
            Some(input) => input,
            None => {
                proof {
                    lemma_base_refusal_stays(kind, records@, expected_project_id@, k + 1, records@.len() as int);
                }
                return Err(
                    MediaServiceError::new(
                        MediaErrorCode::InputReferenceMismatch,
                        operation,
                        "媒体文档中的冻结输入格式无效。",
                    ),
                );
            },
        };
        let mut repeated = false;
        let mut j: usize = 0;
        while j < k
            invariant
                0 <= j <= k < records@.len(),
                inputs@.len() == k,
                record == records@[k as int],
                record.input == Some(*input),
                forall|q: int| 0 <= q < k ==> #[trigger] input_of_record(records@[q], inputs@[q]),
                repeated == exists|q: int|
                    0 <= q < j && clashes(kind, (#[trigger] records@[q]).input.unwrap(), *input),
            decreases k - j,
        {
            assert(input_of_record(records@[j as int], inputs@[j as int]));
            let same_stage = match kind {
                BaseDocumentKind::Timeline => same_text(inputs[j].stage_id.as_str(), input.stage_id.as_str()),
                BaseDocumentKind::ScenePlan => false,
            };
            if same_text(inputs[j].artifact_id.as_str(), input.artifact_id.as_str()) || same_stage {
                repeated = true;
            }
            j = j + 1;
        }
        let stage_ok = match kind {
            BaseDocumentKind::Timeline => timeline_stage_exec(input.stage_id.as_str()),
            BaseDocumentKind::ScenePlan => true,
        };
        if !valid_portable_id(input.stage_id.as_str(), 160) || !stage_ok || !run_id_is_valid(
            input.run_id.as_str(),
        ) || !artifact_ref_is_valid(input.artifact_id.as_str()) || !is_sha256(
            input.content_hash.as_str(),
        ) || !valid_portable_id(input.review_record_id.as_str(), 160) || !valid_string_set(
            &input.claim_ids,
        ) || !valid_string_set(&input.evidence_refs) || repeated {
            proof {
                lemma_base_refusal_stays(kind, records@, expected_project_id@, k + 1, records@.len() as int);
            }
            return Err(base_error(MediaErrorCode::InputReferenceMismatch, operation, kind, 2));
        }
        inputs.push(copy_frozen_input(input));
        k = k + 1;
    }
    proof {
        if kind == BaseDocumentKind::Timeline {
            lemma_timeline_stages_covered(records@, expected_project_id@, inputs@);
        }
    }
    Ok(inputs)
}

/// An input reference of an upstream document as far as its artifact is
/// concerned: its `projectId` and `artifactId` where they are texts.
#[derive(Debug, Clone, PartialEq, Eq)]
pub struct DocumentArtifactRef {
    pub project_id: Option<String>,
    pub artifact_id: Option<String>,
}

/// Why reference `k` of an upstream document is refused given the earlier
/// ones: an artifact identifier that is missing or invalid, or a reference of
/// another project or to an artifact named before.
pub open spec fn artifact_ref_refusal(refs: Seq<DocumentArtifactRef>, project_id: Seq<char>, k: int) -> Option<
    Seq<char>,
> {
    let reference = refs[k];
    if !(reference.artifact_id is Some && artifact_ref_spec(reference.artifact_id.unwrap()@)) {
        Some("Timeline 输入文档包含无效 Artifact 引用。"@)
    } else if opt_view(reference.project_id) != Some(project_id) || exists|j: int|
        0 <= j < k && opt_view((#[trigger] refs[j]).artifact_id) == opt_view(reference.artifact_id) {
        Some("Timeline 输入文档包含跨项目或重复 Artifact 引用。"@)
    } else {
        None
    }
}

/// The first refusal among the first `n` references.
pub open spec fn artifact_refs_refusal(refs: Seq<DocumentArtifactRef>, project_id: Seq<char>, n: int) -> Option<
    Seq<char>,
>
    decreases n,
{
    if n <= 0 {
        None
    } else if artifact_refs_refusal(refs, project_id, n - 1) is Some {
        artifact_refs_refusal(refs, project_id, n - 1)
    } else {
        artifact_ref_refusal(refs, project_id, n - 1)
    }
}

proof fn lemma_artifact_refs_refusal_stays(refs: Seq<DocumentArtifactRef>, project_id: Seq<char>, m: int, n: int)
    requires
        m <= n,
        artifact_refs_refusal(refs, project_id, m) is Some,
    ensures
        artifact_refs_refusal(refs, project_id, n) == artifact_refs_refusal(refs, project_id, m),
    decreases n - m,
{
    if m < n {
        lemma_artifact_refs_refusal_stays(refs, project_id, m, n - 1);
    }
}

/// Why the input references of an upstream document are refused, if they are.
pub open spec fn document_artifact_ids_refusal(refs: Seq<DocumentArtifactRef>, project_id: Seq<char>) -> Option<
    Seq<char>,
> {
    if !(0 < refs.len() <= 32) {
        Some("Timeline 输入文档缺少有界 inputRefs。"@)
    } else {
        artifact_refs_refusal(refs, project_id, refs.len() as int)
    }
}

/// The artifacts an upstream document of a timeline names, in order: 1 to 32
/// references, each to a valid artifact of the project, none named twice.
pub fn document_input_artifact_ids(
    refs: &[DocumentArtifactRef],
    expected_project_id: &str,
    operation: MediaOperation,
) -> (result: Result<Vec<String>, MediaServiceError>)
    ensures
        match document_artifact_ids_refusal(refs@, expected_project_id@) {
            Some(message) => result matches Err(error) && plain_media_error(
                error,
                MediaErrorCode::InputReferenceMismatch,
                operation,
                message,
            ),
            None => result matches Ok(ids) && ids@.len() == refs@.len() && forall|k: int|
                0 <= k < refs@.len() ==> refs@[k].artifact_id == Some(#[trigger] ids@[k]),
        },
{
    if refs.len() == 0 || refs.len() > 32 {
        return Err(
            MediaServiceError::new(
                MediaErrorCode::InputReferenceMismatch,
                operation,
                "Timeline 输入文档缺少有界 inputRefs。",
            ),
        );
    }
    let mut ids: Vec<String> = Vec::new();
    let mut k: usize = 0;
    while k < refs.len()
        invariant
            0 < refs@.len() <= 32,
            0 <= k <= refs@.len(),
            artifact_refs_refusal(refs@, expected_project_id@, k as int) is None,
            ids@.len() == k,
            forall|q: int| 0 <= q < k ==> refs@[q].artifact_id == Some(#[trigger] ids@[q]),
        decreases refs@.len() - k,
    {
        let reference = &refs[k];
        let artifact_id = match &reference.artifact_id {
            Some(id) => id,
            None => {
                proof {
                    lemma_artifact_refs_refusal_stays(refs@, expected_project_id@, k + 1, refs@.len() as int);
                }
                return Err(
                    MediaServiceError::new(
                        MediaErrorCode::InputReferenceMismatch,
                        operation,
                        "Timeline 输入文档包含无效 Artifact 引用。",
                    ),
                );
            },
        };
        if !artifact_ref_is_valid(artifact_id.as_str()) {
            proof {
                lemma_artifact_refs_refusal_stays(refs@, expected_project_id@, k + 1, refs@.len() as int);
            }
            return Err(
                MediaServiceError::new(
                    MediaErrorCode::InputReferenceMismatch,
                    operation,
                    "Timeline 输入文档包含无效 Artifact 引用。",
                ),
            );
        }
        let same_project = match &reference.project_id {
            Some(project) => same_text(project.as_str(), expected_project_id),
            None => false,
        };
        let mut repeated = false;
        let mut j: usize = 0;
        while j < k
            invariant
                0 <= j <= k < refs@.len(),
                ids@.len() == k,
                reference == refs@[k as int],
                reference.artifact_id == Some(*artifact_id),
                forall|q: int| 0 <= q < k ==> refs@[q].artifact_id == Some(#[trigger] ids@[q]),
                repeated == exists|q: int|
                    0 <= q < j && opt_view((#[trigger] refs@[q]).artifact_id) == opt_view(reference.artifact_id),
            decreases k - j,
        {
            assert(refs@[j as int].artifact_id == Some(ids@[j as int]));
            if same_text(ids[j].as_str(), artifact_id.as_str()) {
                repeated = true;
            }
            j = j + 1;
        }
        if !same_project || repeated {
            proof {
                lemma_artifact_refs_refusal_stays(refs@, expected_project_id@, k + 1, refs@.len() as int);
            }
            return Err(
                MediaServiceError::new(
                    MediaErrorCode::InputReferenceMismatch,
                    operation,
                    "Timeline 输入文档包含跨项目或重复 Artifact 引用。",
                ),
            );
        }
        ids.push(artifact_id.clone());
        k = k + 1;
    }
    Ok(ids)
}

} // verus!
