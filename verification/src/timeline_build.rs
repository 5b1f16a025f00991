use vstd::prelude::*;

use crate::caption_trace::{push_unique_text, union_in_order};
use crate::identifiers::{
    portable_id, portable_id_spec, same_texts, string_set_spec, texts, valid_string_set,
};
use crate::text::{copy_texts, same_text};
use crate::timeline::{
    error_with, TimelineDomainError, TimelineDomainErrorCode, MAX_TIMELINE_CUES, MAX_TIMELINE_SCENES,
};

verus! {

/// A list of texts as a source document holds it under one field.
#[derive(Debug, Clone, PartialEq, Eq)]
pub enum TextListField {
    /// The field is missing or is not a list.
    Absent,
    /// The list holds an entry that is not a text.
    HasNonText,
    /// The list holds only texts.
    Items(Vec<String>),
}

/// Why the list under field `name` is not a bounded set of traceability
/// strings, if it is not.
pub open spec fn text_list_refusal(field: TextListField, name: Seq<char>) -> Option<Seq<char>> {
    match field {
        TextListField::Absent => Some(name + " 缺失或不是数组。"@),
        TextListField::HasNonText => Some(name + " 包含非字符串。"@),
        TextListField::Items(values) => if string_set_spec(texts(values@)) {
            None
        } else {
            Some(name + " 不是有界唯一字符串集合。"@)
        },
    }
}

/// The entries of a list that holds only texts.
pub open spec fn list_items(field: TextListField) -> Option<Seq<String>> {
    match field {
        TextListField::Items(values) => Some(values@),
        _ => None,
    }
}

/// `name` followed by `suffix`.
fn field_message(name: &str, suffix: &str) -> (message: String)
    ensures
        message@ == name@ + suffix@,
{
    let mut message = String::from_str(name);
    message.append(suffix);
    message
}

/// The texts of the list under field `name`, refused with `code` unless they
/// form a bounded set of traceability strings.
pub fn read_text_list(field: &TextListField, name: &str, code: TimelineDomainErrorCode) -> (result:
    Result<Vec<String>, TimelineDomainError>)
    ensures
        result is Ok <==> text_list_refusal(*field, name@) is None,
        result matches Ok(values) ==> list_items(*field) == Some(values@),
        result matches Err(error) ==> error.code == code && Some(error.message@)
            == text_list_refusal(*field, name@),
{
    proof {
        reveal_strlit(" 缺失或不是数组。");
        reveal_strlit(" 包含非字符串。");
        reveal_strlit(" 不是有界唯一字符串集合。");
    }
    match field {
        TextListField::Absent => Err(error_with(code, field_message(name, " 缺失或不是数组。"))),
        TextListField::HasNonText => Err(error_with(code, field_message(name, " 包含非字符串。"))),
        TextListField::Items(values) => {
            if !valid_string_set(values.as_slice()) {
                return Err(error_with(code, field_message(name, " 不是有界唯一字符串集合。")));
            }
            Ok(copy_texts(values))
        },
    }
}

/// A caption cue as a captions document holds it; a field that is missing
/// or of the wrong kind is `None`.
#[derive(Debug, Clone, PartialEq, Eq)]
pub struct CaptionCueInput {
    pub cue_id: Option<String>,
    pub source_index: Option<u64>,
    pub start_ms: Option<u64>,
    pub end_ms: Option<u64>,
    pub claim_ids: TextListField,
    pub evidence_refs: TextListField,
}

/// A validated caption cue with its traceability.
#[derive(Debug, Clone, PartialEq, Eq)]
pub struct CaptionCueClosure {
    pub cue_id: String,
    pub start_ms: u64,
    pub end_ms: u64,
    pub claim_ids: Vec<String>,
    pub evidence_refs: Vec<String>,
}

/// Cue `i` continues the captions: numbered `i + 1`, a portable identifier
/// not used by an earlier cue, starting no earlier than the previous cue
/// ends, non-empty and within the audio.
pub open spec fn cue_in_order(cues: Seq<CaptionCueInput>, i: int, duration_ms: u64) -> bool {
    let cue = cues[i];
    let previous_end: int = if i == 0 {
        0
    } else {
        cues[i - 1].end_ms.unwrap() as int
    };
    &&& cue.source_index == Some((i + 1) as u64)
    &&& portable_id_spec(cue.cue_id.unwrap()@, 160)
    &&& forall|j: int| 0 <= j < i ==> cues[j].cue_id.unwrap()@ != cue.cue_id.unwrap()@
    &&& previous_end <= cue.start_ms.unwrap()
    &&& cue.start_ms.unwrap() < cue.end_ms.unwrap()
    &&& cue.end_ms.unwrap() <= duration_ms
}

/// Why cue `i` is refused, given that the cues before it were accepted.
pub open spec fn cue_refusal(cues: Seq<CaptionCueInput>, i: int, duration_ms: u64) -> Option<
    Seq<char>,
> {
    let cue = cues[i];
    if cue.cue_id is None {
        Some("cueId 缺失或无效。"@)
    } else if cue.start_ms is None {
        Some("startMs 缺失或无效。"@)
    } else if cue.end_ms is None {
        Some("endMs 缺失或无效。"@)
    } else if !cue_in_order(cues, i, duration_ms) {
        Some("Captions cue 必须连续编号、唯一、有序、不重叠且位于音频范围内。"@)
    } else if text_list_refusal(cue.claim_ids, "claimIds"@) is Some {
        text_list_refusal(cue.claim_ids, "claimIds"@)
    } else {
        text_list_refusal(cue.evidence_refs, "evidenceRefs"@)
    }
}

/// The refusal of the first refused cue among the first `n`.
pub open spec fn cue_list_refusal(cues: Seq<CaptionCueInput>, duration_ms: u64, n: int) -> Option<
    Seq<char>,
>
    decreases n,
{
    if n <= 0 {
        None
    } else if cue_list_refusal(cues, duration_ms, n - 1) is Some {
        cue_list_refusal(cues, duration_ms, n - 1)
    } else {
        cue_refusal(cues, n - 1, duration_ms)
    }
}

/// Once a cue is refused, later cues do not change the refusal.
proof fn lemma_cue_list_refusal_stays(cues: Seq<CaptionCueInput>, duration_ms: u64, m: int, n: int)
    requires
        m <= n,
        cue_list_refusal(cues, duration_ms, m) is Some,
    ensures
        cue_list_refusal(cues, duration_ms, n) == cue_list_refusal(cues, duration_ms, m),
    decreases n - m,
{
    if m < n {
        lemma_cue_list_refusal_stays(cues, duration_ms, m, n - 1);
    }
}

/// No cue among the first `n` is refused exactly when each of them passes.
pub(crate) proof fn lemma_cue_list_accepts(cues: Seq<CaptionCueInput>, duration_ms: u64, n: int)
    requires
        0 <= n <= cues.len(),
    ensures
        cue_list_refusal(cues, duration_ms, n) is None <==> forall|j: int|
            0 <= j < n ==> #[trigger] cue_refusal(cues, j, duration_ms) is None,
    decreases n,
{
    if n > 0 {
        lemma_cue_list_accepts(cues, duration_ms, n - 1);
        if cue_list_refusal(cues, duration_ms, n - 1) is Some {
            let j = choose|j: int| 0 <= j < n - 1 && !(#[trigger] cue_refusal(cues, j, duration_ms) is None);
            assert(!(cue_refusal(cues, j, duration_ms) is None));
        }
    }
}

/// Why the cues of a captions document are refused, if they are.
pub open spec fn caption_cues_refusal(cues: Seq<CaptionCueInput>, duration_ms: u64) -> Option<
    Seq<char>,
> {
    if !cue_count_valid(cues) {
        Some("Captions cue 清单缺失、为空或超过上限。"@)
    } else {
        cue_list_refusal(cues, duration_ms, cues.len() as int)
    }
}

/// What the timeline reads of a cue: its identifier, times and traceability.
pub struct CueTrace {
    pub cue_id: Seq<char>,
    pub start_ms: u64,
    pub end_ms: u64,
    pub claims: Seq<Seq<char>>,
    pub evidence: Seq<Seq<char>>,
}

/// The trace of a validated cue.
pub open spec fn closure_trace(cue: CaptionCueClosure) -> CueTrace {
    CueTrace {
        cue_id: cue.cue_id@,
        start_ms: cue.start_ms,
        end_ms: cue.end_ms,
        claims: texts(cue.claim_ids@),
        evidence: texts(cue.evidence_refs@),
    }
}

/// The traces of validated cues.
pub open spec fn closures_trace(cues: Seq<CaptionCueClosure>) -> Seq<CueTrace> {
    cues.map_values(|c: CaptionCueClosure| closure_trace(c))
}

/// The trace of a cue as the captions document holds it (meaningful once it
/// is accepted).
pub open spec fn input_trace(cue: CaptionCueInput) -> CueTrace {
    CueTrace {
        cue_id: cue.cue_id.unwrap()@,
        start_ms: cue.start_ms.unwrap(),
        end_ms: cue.end_ms.unwrap(),
        claims: texts(list_items(cue.claim_ids).unwrap()),
        evidence: texts(list_items(cue.evidence_refs).unwrap()),
    }
}

/// The traces of cues as the captions document holds them.
pub open spec fn inputs_trace(cues: Seq<CaptionCueInput>) -> Seq<CueTrace> {
    cues.map_values(|c: CaptionCueInput| input_trace(c))
}

/// There are 1 to 10000 cues.
pub open spec fn cue_count_valid(cues: Seq<CaptionCueInput>) -> bool {
    0 < cues.len() <= MAX_TIMELINE_CUES
}

/// The closure keeps the cue's identifier, times and traceability.
pub open spec fn closure_of(closure: CaptionCueClosure, cue: CaptionCueInput) -> bool {
    &&& Some(closure.cue_id) == cue.cue_id
    &&& Some(closure.start_ms) == cue.start_ms
    &&& Some(closure.end_ms) == cue.end_ms
    &&& list_items(cue.claim_ids) == Some(closure.claim_ids@)
    &&& list_items(cue.evidence_refs) == Some(closure.evidence_refs@)
}

/// Whether cue `i`'s identifier is used by an earlier cue.
fn cue_id_used_before(cues: &[CaptionCueInput], i: usize, id: &str) -> (result: bool)
    requires
        i <= cues@.len(),
        forall|j: int| 0 <= j < i ==> cues@[j].cue_id is Some,
    ensures
        result == exists|j: int| 0 <= j < i && cues@[j].cue_id.unwrap()@ == id@,
{
    let mut j: usize = 0;
    while j < i
        invariant
            i <= cues@.len(),
            0 <= j <= i,
            forall|q: int| 0 <= q < i ==> cues@[q].cue_id is Some,
            forall|q: int| 0 <= q < j ==> cues@[q].cue_id.unwrap()@ != id@,
        decreases i - j,
    {
        match &cues[j].cue_id {
            Some(other) => {
                if same_text(other.as_str(), id) {
                    return true;
                }
            },
            None => {},
        }
        j = j + 1;
    }
    false
}

/// The cues of a captions document, checked in order against the audio's
/// duration.
pub fn validated_caption_cues(cues: &[CaptionCueInput], duration_ms: u64) -> (result: Result<
    Vec<CaptionCueClosure>,
    TimelineDomainError,
>)
    ensures
        result is Ok <==> caption_cues_refusal(cues@, duration_ms) is None,
        result is Ok <==> cue_count_valid(cues@) && forall|i: int|
            0 <= i < cues@.len() ==> #[trigger] cue_refusal(cues@, i, duration_ms) is None,
        result matches Ok(closures) ==> {
            &&& closures@.len() == cues@.len()
            &&& forall|i: int| 0 <= i < cues@.len() ==> closure_of(#[trigger] closures@[i], cues@[i])
            &&& closures_trace(closures@) == inputs_trace(cues@)
        },
        result matches Err(error) ==> error.code == TimelineDomainErrorCode::InvalidInput && Some(
            error.message@,
        ) == caption_cues_refusal(cues@, duration_ms),
{
    if cues.len() == 0 || cues.len() > MAX_TIMELINE_CUES {
        return Err(
            TimelineDomainError::new(
                TimelineDomainErrorCode::InvalidInput,
                "Captions cue 清单缺失、为空或超过上限。",
            ),
        );
    }
    let mut result: Vec<CaptionCueClosure> = Vec::new();
    let mut previous_end: u64 = 0;
    let mut index: usize = 0;
    while index < cues.len()
        invariant
            cue_count_valid(cues@),
            0 <= index <= cues@.len(),
            previous_end == if index == 0 {
                0
            } else {
                cues@[index - 1].end_ms.unwrap()
            },
            forall|j: int| 0 <= j < index ==> #[trigger] cue_refusal(cues@, j, duration_ms) is None,
            cue_list_refusal(cues@, duration_ms, index as int) is None,
            result@.len() == index,
            forall|j: int| 0 <= j < index ==> closure_of(#[trigger] result@[j], cues@[j]),
        decreases cues@.len() - index,
    {
        let cue = &cues[index];
        proof {
            reveal_strlit("claimIds");
            reveal_strlit("evidenceRefs");
        }
        let cue_id = match &cue.cue_id {
            Some(id) => id,
            None => {
                proof { lemma_cue_list_refusal_stays(cues@, duration_ms, index + 1, cues@.len() as int); }
                return Err(
                    TimelineDomainError::new(TimelineDomainErrorCode::InvalidInput, "cueId 缺失或无效。"),
                );
            },
        };
        let start_ms = match cue.start_ms {
            Some(value) => value,
            None => {
                proof { lemma_cue_list_refusal_stays(cues@, duration_ms, index + 1, cues@.len() as int); }
                return Err(
                    TimelineDomainError::new(
                        TimelineDomainErrorCode::InvalidInput,
                        "startMs 缺失或无效。",
                    ),
                );
            },
        };
        let end_ms = match cue.end_ms {
            Some(value) => value,
            None => {
                proof { lemma_cue_list_refusal_stays(cues@, duration_ms, index + 1, cues@.len() as int); }
                return Err(
                    TimelineDomainError::new(TimelineDomainErrorCode::InvalidInput, "endMs 缺失或无效。"),
                );
            },
        };
        assert forall|j: int| 0 <= j < index implies cues@[j].cue_id is Some by {
            assert(cue_refusal(cues@, j, duration_ms) is None);
        }
        let numbered = match cue.source_index {
            Some(value) => value == index as u64 + 1,
            None => false,
        };
        if !numbered || !portable_id(cue_id.as_str()) || cue_id_used_before(cues, index, cue_id.as_str())
            || start_ms < previous_end || start_ms >= end_ms || end_ms > duration_ms {
            assert(!cue_in_order(cues@, index as int, duration_ms));
            proof { lemma_cue_list_refusal_stays(cues@, duration_ms, index + 1, cues@.len() as int); }
            return Err(
                TimelineDomainError::new(
                    TimelineDomainErrorCode::InvalidInput,
                    "Captions cue 必须连续编号、唯一、有序、不重叠且位于音频范围内。",
                ),
            );
        }
        assert(cue_in_order(cues@, index as int, duration_ms));
        let claim_ids = match read_text_list(&cue.claim_ids, "claimIds", TimelineDomainErrorCode::InvalidInput) {
            Ok(values) => values,
            Err(error) => {
                proof { lemma_cue_list_refusal_stays(cues@, duration_ms, index + 1, cues@.len() as int); }
                return Err(error);
            },
        };
        let evidence_refs = match read_text_list(
            &cue.evidence_refs,
            "evidenceRefs",
            TimelineDomainErrorCode::InvalidInput,
        ) {
            Ok(values) => values,
            Err(error) => {
                proof { lemma_cue_list_refusal_stays(cues@, duration_ms, index + 1, cues@.len() as int); }
                return Err(error);
            },
        };
        let closure = CaptionCueClosure {
            cue_id: cue_id.clone(),
            start_ms,
            end_ms,
            claim_ids,
            evidence_refs,
        };
        result.push(closure);
        previous_end = end_ms;
        index = index + 1;
    }
    proof {
        lemma_cue_list_accepts(cues@, duration_ms, cues@.len() as int);
        assert forall|j: int| 0 <= j < cues@.len() implies #[trigger] closures_trace(result@)[j]
            == inputs_trace(cues@)[j] by {
            assert(closure_of(result@[j], cues@[j]));
        }
        assert(closures_trace(result@) =~= inputs_trace(cues@));
    }
    Ok(result)
}


/// A scene of a scene plan as the timeline reads it; a field that is
/// missing or of the wrong kind is `None`, and so is a cue reference that is
/// not a text.
#[derive(Debug, Clone, PartialEq, Eq)]
pub struct ScenePlanSceneInput {
    pub scene_id: String,
    pub suggested_start_ms: Option<u64>,
    pub suggested_end_ms: Option<u64>,
    pub cue_ids: Option<Vec<Option<String>>>,
    pub claim_ids: TextListField,
    pub evidence_refs: TextListField,
}

/// The position of the last of the first `n` cues with identifier `id`, or
/// -1 when there is none (a later cue with the same identifier wins).
pub open spec fn last_cue_index(cues: Seq<CueTrace>, id: Seq<char>, n: int) -> int
    decreases n,
{
    if n <= 0 {
        -1
    } else if cues[n - 1].cue_id == id {
        n - 1
    } else {
        last_cue_index(cues, id, n - 1)
    }
}

/// The cue a reference resolves to.
pub open spec fn referenced_cue(cues: Seq<CueTrace>, reference: Option<String>) -> CueTrace {
    cues[last_cue_index(cues, reference.unwrap()@, cues.len() as int)]
}

/// Why a scene's cue reference is refused, if it is.
pub open spec fn cue_ref_refusal(
    cues: Seq<CueTrace>,
    reference: Option<String>,
    start_ms: u64,
    end_ms: u64,
) -> Option<Seq<char>> {
    if reference is None {
        Some("Scene Plan cue 引用无效。"@)
    } else if last_cue_index(cues, reference.unwrap()@, cues.len() as int) < 0 {
        Some("Scene Plan 引用了 Captions 中不存在的 cue。"@)
    } else if referenced_cue(cues, reference).start_ms < start_ms || referenced_cue(
        cues,
        reference,
    ).end_ms > end_ms {
        Some("Scene Plan cue 不位于所属 scene 的时间范围内。"@)
    } else {
        None
    }
}

/// The refusal of the first refused reference among the first `n`.
pub open spec fn cue_refs_refusal(
    cues: Seq<CueTrace>,
    refs: Seq<Option<String>>,
    start_ms: u64,
    end_ms: u64,
    n: int,
) -> Option<Seq<char>>
    decreases n,
{
    if n <= 0 {
        None
    } else if cue_refs_refusal(cues, refs, start_ms, end_ms, n - 1) is Some {
        cue_refs_refusal(cues, refs, start_ms, end_ms, n - 1)
    } else {
        cue_ref_refusal(cues, refs[n - 1], start_ms, end_ms)
    }
}

/// Once a reference is refused, later references do not change the refusal.
proof fn lemma_cue_refs_refusal_stays(
    cues: Seq<CueTrace>,
    refs: Seq<Option<String>>,
    start_ms: u64,
    end_ms: u64,
    m: int,
    n: int,
)
    requires
        m <= n,
        cue_refs_refusal(cues, refs, start_ms, end_ms, m) is Some,
    ensures
        cue_refs_refusal(cues, refs, start_ms, end_ms, n) == cue_refs_refusal(
            cues,
            refs,
            start_ms,
            end_ms,
            m,
        ),
    decreases n - m,
{
    if m < n {
        lemma_cue_refs_refusal_stays(cues, refs, start_ms, end_ms, m, n - 1);
    }
}

/// The claims (or, with `evidence`, the evidence references) of the cues the
/// first `n` references resolve to, each once, in order of first appearance.
pub open spec fn refs_trace(
    cues: Seq<CueTrace>,
    refs: Seq<Option<String>>,
    n: int,
    evidence: bool,
) -> Seq<Seq<char>>
    decreases n,
{
    if n <= 0 {
        Seq::empty()
    } else {
        let cue = referenced_cue(cues, refs[n - 1]);
        union_in_order(
            refs_trace(cues, refs, n - 1, evidence),
            if evidence {
                cue.evidence
            } else {
                cue.claims
            },
        )
    }
}

/// Why one scene is refused against the captions, if it is.
pub open spec fn plan_scene_refusal(
    cues: Seq<CueTrace>,
    scene: ScenePlanSceneInput,
    duration_ms: u64,
) -> Option<Seq<char>> {
    let start = scene.suggested_start_ms.unwrap();
    let end = scene.suggested_end_ms.unwrap();
    let refs = scene.cue_ids.unwrap()@;
    if scene.suggested_start_ms is None {
        Some("suggestedStartMs 缺失或无效。"@)
    } else if scene.suggested_end_ms is None {
        Some("suggestedEndMs 缺失或无效。"@)
    } else if end > duration_ms {
        Some("Scene Plan scene 超出 Audio duration。"@)
    } else if scene.cue_ids is None {
        Some("Scene Plan scene 缺少 cueIds。"@)
    } else if cue_refs_refusal(cues, refs, start, end, refs.len() as int) is Some {
        cue_refs_refusal(cues, refs, start, end, refs.len() as int)
    } else if text_list_refusal(scene.claim_ids, "claimIds"@) is Some {
        text_list_refusal(scene.claim_ids, "claimIds"@)
    } else if refs_trace(cues, refs, refs.len() as int, false) != texts(
        list_items(scene.claim_ids).unwrap(),
    ) {
        Some("Scene Plan scene 追溯集合与所属 Captions cue 不一致。"@)
    } else if text_list_refusal(scene.evidence_refs, "evidenceRefs"@) is Some {
        text_list_refusal(scene.evidence_refs, "evidenceRefs"@)
    } else if refs_trace(cues, refs, refs.len() as int, true) != texts(
        list_items(scene.evidence_refs).unwrap(),
    ) {
        Some("Scene Plan scene 追溯集合与所属 Captions cue 不一致。"@)
    } else {
        None
    }
}

/// The refusal of the first refused scene among the first `n`.
pub open spec fn plan_scenes_refusal(
    cues: Seq<CueTrace>,
    scenes: Seq<ScenePlanSceneInput>,
    duration_ms: u64,
    n: int,
) -> Option<Seq<char>>
    decreases n,
{
    if n <= 0 {
        None
    } else if plan_scenes_refusal(cues, scenes, duration_ms, n - 1) is Some {
        plan_scenes_refusal(cues, scenes, duration_ms, n - 1)
    } else {
        plan_scene_refusal(cues, scenes[n - 1], duration_ms)
    }
}

/// Once a scene is refused, later scenes do not change the refusal.
proof fn lemma_plan_scenes_refusal_stays(
    cues: Seq<CueTrace>,
    scenes: Seq<ScenePlanSceneInput>,
    duration_ms: u64,
    m: int,
    n: int,
)
    requires
        m <= n,
        plan_scenes_refusal(cues, scenes, duration_ms, m) is Some,
    ensures
        plan_scenes_refusal(cues, scenes, duration_ms, n) == plan_scenes_refusal(
            cues,
            scenes,
            duration_ms,
            m,
        ),
    decreases n - m,
{
    if m < n {
        lemma_plan_scenes_refusal_stays(cues, scenes, duration_ms, m, n - 1);
    }
}

/// When no scene among the first `n` is refused, each of them passes.
proof fn lemma_plan_scenes_accept(
    cues: Seq<CueTrace>,
    scenes: Seq<ScenePlanSceneInput>,
    duration_ms: u64,
    n: int,
)
    requires
        plan_scenes_refusal(cues, scenes, duration_ms, n) is None,
    ensures
        forall|i: int| 0 <= i < n ==> #[trigger] plan_scene_refusal(cues, scenes[i], duration_ms) is None,
    decreases n,
{
    if n > 0 {
        lemma_plan_scenes_accept(cues, scenes, duration_ms, n - 1);
    }
}

/// A scene plan that agrees with its captions gives every scene a start and
/// an end.
pub(crate) proof fn lemma_plan_scenes_accept_bounds(
    cues: Seq<CueTrace>,
    scenes: Seq<ScenePlanSceneInput>,
    duration_ms: u64,
)
    requires
        scene_plan_captions_refusal(scenes, cues, duration_ms) is None,
    ensures
        forall|i: int|
            0 <= i < scenes.len() ==> (#[trigger] scenes[i]).suggested_start_ms is Some
                && scenes[i].suggested_end_ms is Some,
{
    lemma_plan_scenes_accept(cues, scenes, duration_ms, scenes.len() as int);
    assert forall|i: int| 0 <= i < scenes.len() implies (#[trigger] scenes[i]).suggested_start_ms is Some
        && scenes[i].suggested_end_ms is Some by {
        assert(plan_scene_refusal(cues, scenes[i], duration_ms) is None);
    }
}

/// The texts of the cue references of the first `n` scenes, in order.
pub open spec fn plan_cue_refs(scenes: Seq<ScenePlanSceneInput>, n: int) -> Seq<Seq<char>>
    decreases n,
{
    if n <= 0 {
        Seq::empty()
    } else {
        plan_cue_refs(scenes, n - 1) + scenes[n - 1].cue_ids.unwrap()@.map_values(
            |r: Option<String>| r.unwrap()@,
        )
    }
}

/// The identifiers of the cues, in order.
pub open spec fn closure_ids(cues: Seq<CueTrace>) -> Seq<Seq<char>> {
    cues.map_values(|c: CueTrace| c.cue_id)
}

/// Why a scene plan does not agree with the captions it was planned on, if
/// it does not: 1 to 10000 scenes, each within the audio, referencing
/// existing cues inside its time range and carrying exactly their
/// traceability, and all scenes together referencing every cue once, in
/// caption order.
pub open spec fn scene_plan_captions_refusal(
    scenes: Seq<ScenePlanSceneInput>,
    cues: Seq<CueTrace>,
    duration_ms: u64,
) -> Option<Seq<char>> {
    if !(0 < scenes.len() <= MAX_TIMELINE_SCENES) {
        Some("Scene Plan scene 清单缺失、为空或超过上限。"@)
    } else if plan_scenes_refusal(cues, scenes, duration_ms, scenes.len() as int) is Some {
        plan_scenes_refusal(cues, scenes, duration_ms, scenes.len() as int)
    } else if plan_cue_refs(scenes, scenes.len() as int) != closure_ids(cues) {
        Some("Scene Plan cue 引用必须完整且与 Captions 顺序一致。"@)
    } else {
        None
    }
}

/// Finds [`last_cue_index`] of `id` among all cues.
fn find_cue(cues: &[CaptionCueClosure], id: &str) -> (found: Option<usize>)
    ensures
        match found {
            Some(k) => k < cues@.len() && k as int == last_cue_index(closures_trace(cues@), id@, cues@.len() as int),
            None => last_cue_index(closures_trace(cues@), id@, cues@.len() as int) < 0,
        },
{
    let mut n: usize = cues.len();
    while n > 0
        invariant
            n <= cues@.len(),
            last_cue_index(closures_trace(cues@), id@, cues@.len() as int) == last_cue_index(closures_trace(cues@), id@, n as int),
        decreases n,
    {
        if same_text(cues[n - 1].cue_id.as_str(), id) {
            return Some(n - 1);
        }
        n = n - 1;
    }
    None
}

/// Appends to `acc` the entries of `values` it does not hold yet.
fn extend_trace(acc: &mut Vec<String>, values: &[String])
    ensures
        texts(final(acc)@) == union_in_order(texts(old(acc)@), texts(values@)),
{
    let ghost start = texts(acc@);
    let mut k: usize = 0;
    while k < values.len()
        invariant
            0 <= k <= values@.len(),
            texts(acc@) == union_in_order(start, texts(values@).take(k as int)),
        decreases values@.len() - k,
    {
        let ghost before = texts(acc@);
        push_unique_text(acc, values[k].as_str());
        proof {
            let more = texts(values@).take(k + 1);
            assert(more.drop_last() =~= texts(values@).take(k as int));
            assert(acc@.map_values(|s: String| s@) == texts(acc@));
        }
        k = k + 1;
    }
    assert(texts(values@).take(values@.len() as int) =~= texts(values@));
}

/// Checks a scene plan against the validated cues of its captions and the
/// audio's duration.
pub fn validate_scene_plan_against_captions(
    scenes: &[ScenePlanSceneInput],
    cues: &[CaptionCueClosure],
    duration_ms: u64,
) -> (result: Result<(), TimelineDomainError>)
    ensures
        result is Ok <==> scene_plan_captions_refusal(scenes@, closures_trace(cues@), duration_ms) is None,
        result matches Err(error) ==> error.code == TimelineDomainErrorCode::InvalidInput
            && Some(error.message@) == scene_plan_captions_refusal(scenes@, closures_trace(cues@), duration_ms),
{
    if scenes.len() == 0 || scenes.len() > MAX_TIMELINE_SCENES {
        return Err(
            TimelineDomainError::new(
                TimelineDomainErrorCode::InvalidInput,
                "Scene Plan scene 清单缺失、为空或超过上限。",
            ),
        );
    }
    let mut actual_cues: Vec<String> = Vec::new();
    let mut s: usize = 0;
    while s < scenes.len()
        invariant
            0 < scenes@.len() <= MAX_TIMELINE_SCENES,
            0 <= s <= scenes@.len(),
            plan_scenes_refusal(closures_trace(cues@), scenes@, duration_ms, s as int) is None,
            texts(actual_cues@) == plan_cue_refs(scenes@, s as int),
        decreases scenes@.len() - s,
    {
        match check_plan_scene(&scenes[s], cues, duration_ms, &mut actual_cues) {
            Ok(()) => {},
            Err(error) => {
                proof {
                    lemma_plan_scenes_refusal_stays(
                        closures_trace(cues@),
                        scenes@,
                        duration_ms,
                        s + 1,
                        scenes@.len() as int,
                    );
                }
                return Err(error);
            },
        }
        s = s + 1;
    }
    let mut expected: Vec<String> = Vec::new();
    let mut c: usize = 0;
    while c < cues.len()
        invariant
            0 <= c <= cues@.len(),
            texts(expected@) == closure_ids(closures_trace(cues@)).take(c as int),
        decreases cues@.len() - c,
    {
        let ghost prior = texts(expected@);
        expected.push(cues[c].cue_id.clone());
        assert(texts(expected@) =~= prior.push(cues@[c as int].cue_id@));
        assert(closure_ids(closures_trace(cues@)).take(c + 1) =~= closure_ids(closures_trace(cues@)).take(c as int).push(
            cues@[c as int].cue_id@,
        ));
        c = c + 1;
    }
    assert(closure_ids(closures_trace(cues@)).take(cues@.len() as int) =~= closure_ids(closures_trace(cues@)));
    if !same_texts(actual_cues.as_slice(), expected.as_slice()) {
        return Err(
            TimelineDomainError::new(
                TimelineDomainErrorCode::InvalidInput,
                "Scene Plan cue 引用必须完整且与 Captions 顺序一致。",
            ),
        );
    }
    Ok(())
}

/// Checks one scene of a plan and appends the texts of its cue references to
/// `actual_cues`.
fn check_plan_scene(
    scene: &ScenePlanSceneInput,
    cues: &[CaptionCueClosure],
    duration_ms: u64,
    actual_cues: &mut Vec<String>,
) -> (result: Result<(), TimelineDomainError>)
    ensures
        result is Ok <==> plan_scene_refusal(closures_trace(cues@), *scene, duration_ms) is None,
        result matches Err(error) ==> error.code == TimelineDomainErrorCode::InvalidInput
            && Some(error.message@) == plan_scene_refusal(closures_trace(cues@), *scene, duration_ms),
        result is Ok ==> texts(final(actual_cues)@) == texts(old(actual_cues)@)
            + scene.cue_ids.unwrap()@.map_values(|r: Option<String>| r.unwrap()@),
{
    proof {
        reveal_strlit("claimIds");
        reveal_strlit("evidenceRefs");
    }
    let start_ms = match scene.suggested_start_ms {
        Some(value) => value,
        None => {
            return Err(
                TimelineDomainError::new(
                    TimelineDomainErrorCode::InvalidInput,
                    "suggestedStartMs 缺失或无效。",
                ),
            );
        },
    };
    let end_ms = match scene.suggested_end_ms {
        Some(value) => value,
        None => {
            return Err(
                TimelineDomainError::new(
                    TimelineDomainErrorCode::InvalidInput,
                    "suggestedEndMs 缺失或无效。",
                ),
            );
        },
    };
    if end_ms > duration_ms {
        return Err(
            TimelineDomainError::new(
                TimelineDomainErrorCode::InvalidInput,
                "Scene Plan scene 超出 Audio duration。",
            ),
        );
    }
    let refs = match &scene.cue_ids {
        Some(refs) => refs,
        None => {
            return Err(
                TimelineDomainError::new(
                    TimelineDomainErrorCode::InvalidInput,
                    "Scene Plan scene 缺少 cueIds。",
                ),
            );
        },
    };
    let ghost before = texts(actual_cues@);
    let mut claims: Vec<String> = Vec::new();
    let mut evidence: Vec<String> = Vec::new();
    let mut r: usize = 0;
    while r < refs.len()
        invariant
            scene.cue_ids == Some(*refs),
            scene.suggested_start_ms == Some(start_ms),
            scene.suggested_end_ms == Some(end_ms),
            end_ms <= duration_ms,
            0 <= r <= refs@.len(),
            cue_refs_refusal(closures_trace(cues@), refs@, start_ms, end_ms, r as int) is None,
            texts(claims@) == refs_trace(closures_trace(cues@), refs@, r as int, false),
            texts(evidence@) == refs_trace(closures_trace(cues@), refs@, r as int, true),
            texts(actual_cues@) == before + refs@.take(r as int).map_values(
                |x: Option<String>| x.unwrap()@,
            ),
        decreases refs@.len() - r,
    {
        let id = match &refs[r] {
            Some(id) => id,
            None => {
                proof {
                    lemma_cue_refs_refusal_stays(
                        closures_trace(cues@),
                        refs@,
                        start_ms,
                        end_ms,
                        r + 1,
                        refs@.len() as int,
                    );
                }
                return Err(
                    TimelineDomainError::new(
                        TimelineDomainErrorCode::InvalidInput,
                        "Scene Plan cue 引用无效。",
                    ),
                );
            },
        };
        let k = match find_cue(cues, id.as_str()) {
            Some(k) => k,
            None => {
                proof {
                    lemma_cue_refs_refusal_stays(
                        closures_trace(cues@),
                        refs@,
                        start_ms,
                        end_ms,
                        r + 1,
                        refs@.len() as int,
                    );
                }
                return Err(
                    TimelineDomainError::new(
                        TimelineDomainErrorCode::InvalidInput,
                        "Scene Plan 引用了 Captions 中不存在的 cue。",
                    ),
                );
            },
        };
        let cue = &cues[k];
        if cue.start_ms < start_ms || cue.end_ms > end_ms {
            proof {
                lemma_cue_refs_refusal_stays(
                    closures_trace(cues@),
                    refs@,
                    start_ms,
                    end_ms,
                    r + 1,
                    refs@.len() as int,
                );
            }
            return Err(
                TimelineDomainError::new(
                    TimelineDomainErrorCode::InvalidInput,
                    "Scene Plan cue 不位于所属 scene 的时间范围内。",
                ),
            );
        }
        let ghost prior = texts(actual_cues@);
        actual_cues.push(id.clone());
        extend_trace(&mut claims, cue.claim_ids.as_slice());
        extend_trace(&mut evidence, cue.evidence_refs.as_slice());
        proof {
            assert(refs@.take(r + 1).map_values(|x: Option<String>| x.unwrap()@) =~= refs@.take(
                r as int,
            ).map_values(|x: Option<String>| x.unwrap()@).push(id@));
            assert(texts(actual_cues@) =~= prior.push(id@));
        }
        r = r + 1;
    }
    assert(refs@.take(refs@.len() as int) =~= refs@);
    let claim_ids = read_text_list(&scene.claim_ids, "claimIds", TimelineDomainErrorCode::InvalidInput)?;
    if !same_texts(claims.as_slice(), claim_ids.as_slice()) {
        return Err(
            TimelineDomainError::new(
                TimelineDomainErrorCode::InvalidInput,
                "Scene Plan scene 追溯集合与所属 Captions cue 不一致。",
            ),
        );
    }
    let evidence_refs = read_text_list(
        &scene.evidence_refs,
        "evidenceRefs",
        TimelineDomainErrorCode::InvalidInput,
    )?;
    if !same_texts(evidence.as_slice(), evidence_refs.as_slice()) {
        return Err(
            TimelineDomainError::new(
                TimelineDomainErrorCode::InvalidInput,
                "Scene Plan scene 追溯集合与所属 Captions cue 不一致。",
            ),
        );
    }
    Ok(())
}

} // verus!
