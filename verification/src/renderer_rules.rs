use vstd::prelude::*;
use vstd::utf8::encode_utf8;

use crate::caption_trace::{occurs_at, occurs_at_exec, push_unique_text, union_in_order};
use crate::digest::{sha256_digest, sha256_spec};
use crate::hex::{hex_lower, lowercase_hex};
use crate::identifiers::{same_texts, texts};
use crate::media_rules::{
    media_code_for_workflow, opt_str_view, ApprovedArtifactInputData, WorkflowErrorCode,
    WorkflowServiceError,
};
use crate::project_error::{ProjectErrorCode, ProjectServiceError};
use crate::renderer_error::{
    contract_error, RendererOperation, RendererServiceError, RendererServiceErrorCode,
};
use crate::renderer_types::{RenderTargetData, RendererTimelineInputData};
use crate::storage_error::{StorageErrorCode, StorageServiceError};
use crate::storage_rules::{decimal, push_decimal};
use crate::text::{chars_of, copy_texts, push_char, same_text};

verus! {

/// A claim and the evidence that supports it, as a rendered scene carries it.
#[derive(Debug, Clone, PartialEq, Eq)]
pub struct ProvenanceReferenceData {
    pub claim_id: String,
    pub evidence_ref: String,
}

/// The texts of a provenance reference.
pub open spec fn reference_view(pair: ProvenanceReferenceData) -> (Seq<char>, Seq<char>) {
    (pair.claim_id@, pair.evidence_ref@)
}

/// The texts of provenance references.
pub open spec fn references_view(pairs: Seq<ProvenanceReferenceData>) -> Seq<(Seq<char>, Seq<char>)> {
    pairs.map_values(|p: ProvenanceReferenceData| reference_view(p))
}

/// The HTML escape of one character.
pub open spec fn escape_char(c: char) -> Seq<char> {
    if c == '&' {
        "&amp;"@
    } else if c == '<' {
        "&lt;"@
    } else if c == '>' {
        "&gt;"@
    } else if c == '"' {
        "&quot;"@
    } else if c == '\'' {
        "&#39;"@
    } else {
        seq![c]
    }
}

/// The HTML escape of a text, character by character.
pub open spec fn escape_html_spec(s: Seq<char>) -> Seq<char>
    decreases s.len(),
{
    if s.len() == 0 {
        Seq::empty()
    } else {
        escape_html_spec(s.drop_last()) + escape_char(s.last())
    }
}

/// Appends `piece` to `text`.
fn push_all(text: &mut String, piece: &str)
    ensures
        final(text)@ == old(text)@ + piece@,
{
    text.append(piece);
}

/// Escapes `&`, `<`, `>`, `"` and `'` for use in HTML text and attributes.
pub fn escape_html(value: &str) -> (escaped: String)
    ensures
        escaped@ == escape_html_spec(value@),
{
    let chars = crate::text::chars_of(value);
    let mut escaped = String::new();
    let mut i: usize = 0;
    while i < chars.len()
        invariant
            0 <= i <= chars@.len(),
            escaped@ == escape_html_spec(chars@.take(i as int)),
        decreases chars@.len() - i,
    {
        let c = chars[i];
        assert(chars@.take(i + 1).drop_last() =~= chars@.take(i as int));
        if c == '&' {
            push_all(&mut escaped, "&amp;");
        } else if c == '<' {
            push_all(&mut escaped, "&lt;");
        } else if c == '>' {
            push_all(&mut escaped, "&gt;");
        } else if c == '"' {
            push_all(&mut escaped, "&quot;");
        } else if c == '\'' {
            push_all(&mut escaped, "&#39;");
        } else {
            push_char(&mut escaped, c);
        }
        i = i + 1;
    }
    assert(chars@.take(chars@.len() as int) =~= chars@);
    escaped
}

/// Escaped text holds no `<`, `>`, `"` or `'`, so it cannot open a tag or
/// leave an attribute.
pub proof fn lemma_escaped_html_is_inert(s: Seq<char>)
    ensures
        forall|i: int|
            0 <= i < escape_html_spec(s).len() ==> {
                let c = #[trigger] escape_html_spec(s)[i];
                c != '<' && c != '>' && c != '"' && c != '\''
            },
    decreases s.len(),
{
    reveal_strlit("&amp;");
    reveal_strlit("&lt;");
    reveal_strlit("&gt;");
    reveal_strlit("&quot;");
    reveal_strlit("&#39;");
    if s.len() > 0 {
        lemma_escaped_html_is_inert(s.drop_last());
        let before = escape_html_spec(s.drop_last());
        let tail = escape_char(s.last());
        assert forall|i: int| 0 <= i < escape_html_spec(s).len() implies {
            let c = #[trigger] escape_html_spec(s)[i];
            c != '<' && c != '>' && c != '"' && c != '\''
        } by {
            if i < before.len() {
                assert(escape_html_spec(s)[i] == before[i]);
            } else {
                assert(escape_html_spec(s)[i] == tail[i - before.len()]);
            }
        }
    }
}

/// Characters that need no escaping are kept as they are.
pub proof fn lemma_plain_text_unchanged(s: Seq<char>)
    requires
        forall|i: int|
            0 <= i < s.len() ==> #[trigger] s[i] != '&' && s[i] != '<' && s[i] != '>' && s[i]
                != '"' && s[i] != '\'',
    ensures
        escape_html_spec(s) == s,
    decreases s.len(),
{
    if s.len() > 0 {
        lemma_plain_text_unchanged(s.drop_last());
        assert(s.drop_last() + seq![s.last()] =~= s);
    }
}


/// One item of a scene's provenance list, each field present as a string or not.
#[derive(Debug, Clone, PartialEq, Eq)]
pub struct ProvenanceItem {
    pub claim_id: Option<String>,
    pub evidence_ref: Option<String>,
}

/// A scene's provenance field: missing, not a list, or a list of items.
#[derive(Debug, Clone, PartialEq, Eq)]
pub enum SceneProvenanceInput {
    Absent,
    Malformed,
    Items(Vec<ProvenanceItem>),
}

/// A scene's checked traceability: its provenance pairs and their ordered
/// projections on claims and evidence.
#[derive(Debug, Clone, PartialEq, Eq)]
pub struct SceneTraceabilityData {
    pub provenance: Vec<ProvenanceReferenceData>,
    pub claim_ids: Vec<String>,
    pub evidence_refs: Vec<String>,
}

/// The text of an optional string.
pub open spec fn opt_text(value: Option<String>) -> Option<Seq<char>> {
    match value {
        Some(text) => Some(text@),
        None => None,
    }
}

/// A required string field: present, not empty, at most 2048 bytes.
pub open spec fn required_text_ok(value: Option<Seq<char>>) -> bool {
    value matches Some(text) && 0 < encode_utf8(text).len() <= 2048
}

/// One provenance item's step: both fields required, each at most 512 bytes,
/// and the pair not seen before.
pub open spec fn provenance_item_step(pairs: Seq<(Seq<char>, Seq<char>)>, item: ProvenanceItem) -> Result<
    Seq<(Seq<char>, Seq<char>)>,
    (RendererServiceErrorCode, Seq<char>),
> {
    let claim = opt_text(item.claim_id);
    let evidence = opt_text(item.evidence_ref);
    if !required_text_ok(claim) {
        Err((RendererServiceErrorCode::ContractViolation, "缺少字符串字段 claimId。"@))
    } else if !required_text_ok(evidence) {
        Err((RendererServiceErrorCode::ContractViolation, "缺少字符串字段 evidenceRef。"@))
    } else if encode_utf8(claim.unwrap()).len() > 512 || encode_utf8(evidence.unwrap()).len() > 512 {
        Err(
            (
                RendererServiceErrorCode::TraceabilityIncomplete,
                "场景 provenance 字段超出 512 字符上限。"@,
            ),
        )
    } else if pairs.contains((claim.unwrap(), evidence.unwrap())) {
        Err((RendererServiceErrorCode::TraceabilityIncomplete, "场景 provenance 对必须唯一。"@))
    } else {
        Ok(pairs.push((claim.unwrap(), evidence.unwrap())))
    }
}

/// The provenance pairs of a list of items, in order; the first bad item
/// refuses the list.
pub open spec fn provenance_items_outcome(items: Seq<ProvenanceItem>) -> Result<
    Seq<(Seq<char>, Seq<char>)>,
    (RendererServiceErrorCode, Seq<char>),
>
    decreases items.len(),
{
    if items.len() == 0 {
        Ok(Seq::empty())
    } else {
        match provenance_items_outcome(items.drop_last()) {
            Err(refusal) => Err(refusal),
            Ok(pairs) => provenance_item_step(pairs, items.last()),
        }
    }
}

/// The claims of pairs, each once, in order of first appearance.
pub open spec fn claim_projection(pairs: Seq<(Seq<char>, Seq<char>)>) -> Seq<Seq<char>> {
    union_in_order(Seq::<Seq<char>>::empty(), pairs.map_values(|p: (Seq<char>, Seq<char>)| p.0))
}

/// The evidence of pairs, each once, in order of first appearance.
pub open spec fn evidence_projection(pairs: Seq<(Seq<char>, Seq<char>)>) -> Seq<Seq<char>> {
    union_in_order(Seq::<Seq<char>>::empty(), pairs.map_values(|p: (Seq<char>, Seq<char>)| p.1))
}

/// What checking a scene's traceability yields: its provenance pairs, or the
/// code and message of the refusal. Without a provenance list, a scene may
/// carry no claim and no evidence, or exactly one of each.
pub open spec fn scene_traceability_outcome(
    claims: Seq<Seq<char>>,
    evidence: Seq<Seq<char>>,
    provenance: SceneProvenanceInput,
) -> Result<Seq<(Seq<char>, Seq<char>)>, (RendererServiceErrorCode, Seq<char>)> {
    let pairs = match provenance {
        SceneProvenanceInput::Absent => {
            if claims.len() == 0 && evidence.len() == 0 {
                Ok(Seq::empty())
            } else if claims.len() == 1 && evidence.len() == 1 {
                Ok(seq![(claims[0], evidence[0])])
            } else {
                Err(
                    (
                        RendererServiceErrorCode::TraceabilityIncomplete,
                        "多值追溯集合缺少权威 provenance 对，无法安全渲染。"@,
                    ),
                )
            }
        },
        SceneProvenanceInput::Malformed => Err(
            (
                RendererServiceErrorCode::TraceabilityIncomplete,
                "场景 provenance 必须是 claimId/evidenceRef 对数组。"@,
            ),
        ),
        SceneProvenanceInput::Items(items) => {
            if items@.len() > 1024 {
                Err(
                    (
                        RendererServiceErrorCode::ResourceLimitExceeded,
                        "场景 provenance 超出 1024 对上限。"@,
                    ),
                )
            } else {
                provenance_items_outcome(items@)
            }
        },
    };
    match pairs {
        Err(refusal) => Err(refusal),
        Ok(pairs) => {
            if claim_projection(pairs) != claims || evidence_projection(pairs) != evidence {
                Err(
                    (
                        RendererServiceErrorCode::TraceabilityIncomplete,
                        "claimIds/evidenceRefs 必须是 provenance 对的有序唯一投影。"@,
                    ),
                )
            } else {
                Ok(pairs)
            }
        },
    }
}

/// A renderer error with an owned message.
fn renderer_error(code: RendererServiceErrorCode, operation: RendererOperation, message: String) -> (error:
    RendererServiceError)
    ensures
        error.code == code,
        error.operation == operation,
        error.message@ == message@,
        !error.retryable,
        error.stage_id is None,
        error.run_id is None,
        error.artifact_id is None,
{
    RendererServiceError {
        code,
        operation,
        message,
        retryable: false,
        stage_id: None,
        run_id: None,
        artifact_id: None,
    }
}

/// Whether an optional string is a required field's value.
fn required_text(value: &Option<String>) -> (result: bool)
    ensures
        result == required_text_ok(opt_text(*value)),
{
    match value {
        Some(text) => {
            let bytes = text.as_str().as_bytes();
            bytes.len() > 0 && bytes.len() <= 2048
        },
        None => false,
    }
}

/// Checks a scene's traceability: the provenance pairs (or, without them,
/// at most one claim and one evidence), and that the claims and evidence
/// are exactly the ordered projections of the pairs.
pub fn scene_traceability(
    claim_ids: Vec<String>,
    evidence_refs: Vec<String>,
    provenance: &SceneProvenanceInput,
    operation: RendererOperation,
) -> (result: Result<SceneTraceabilityData, RendererServiceError>)
    ensures
        match scene_traceability_outcome(texts(claim_ids@), texts(evidence_refs@), *provenance) {
            Ok(pairs) => {
                &&& result matches Ok(data)
                &&& references_view(data.provenance@) == pairs
                &&& data.claim_ids@ == claim_ids@
                &&& data.evidence_refs@ == evidence_refs@
            },
            Err((code, message)) => {
                &&& result matches Err(error)
                &&& error.code == code
                &&& error.operation == operation
                &&& error.message@ == message
                &&& !error.retryable
            },
        },
{
    proof {
        reveal_strlit("缺少字符串字段 claimId。");
    }
    let ghost claims = texts(claim_ids@);
    let ghost evidence = texts(evidence_refs@);
    let pairs: Vec<ProvenanceReferenceData> = match provenance {
        SceneProvenanceInput::Absent => {
            if claim_ids.len() == 0 && evidence_refs.len() == 0 {
                Vec::new()
            } else if claim_ids.len() == 1 && evidence_refs.len() == 1 {
                let mut single = Vec::new();
                single.push(
                    ProvenanceReferenceData {
                        claim_id: claim_ids[0].clone(),
                        evidence_ref: evidence_refs[0].clone(),
                    },
                );
                assert(references_view(single@) =~= seq![(claims[0], evidence[0])]);
                single
            } else {
                return Err(
                    RendererServiceError::new(
                        RendererServiceErrorCode::TraceabilityIncomplete,
                        operation,
                        "多值追溯集合缺少权威 provenance 对，无法安全渲染。",
                    ),
                );
            }
        },
        SceneProvenanceInput::Malformed => {
            return Err(
                RendererServiceError::new(
                    RendererServiceErrorCode::TraceabilityIncomplete,
                    operation,
                    "场景 provenance 必须是 claimId/evidenceRef 对数组。",
                ),
            );
        },
        SceneProvenanceInput::Items(items) => {
            if items.len() > 1024 {
                return Err(
                    RendererServiceError::new(
                        RendererServiceErrorCode::ResourceLimitExceeded,
                        operation,
                        "场景 provenance 超出 1024 对上限。",
                    ),
                );
            }
            match provenance_pairs(items, operation) {
                Ok(pairs) => pairs,
                Err(error) => {
                    return Err(error);
                },
            }
        },
    };
    let mut projected_claims: Vec<String> = Vec::new();
    let mut projected_evidence: Vec<String> = Vec::new();
    let ghost all = references_view(pairs@);
    let mut k: usize = 0;
    while k < pairs.len()
        invariant
            all == references_view(pairs@),
            0 <= k <= pairs@.len(),
            projected_claims@.map_values(|s: String| s@) == claim_projection(all.take(k as int)),
            projected_evidence@.map_values(|s: String| s@) == evidence_projection(all.take(k as int)),
        decreases pairs@.len() - k,
    {
        proof {
            let t = all.take(k + 1);
            assert(t.map_values(|p: (Seq<char>, Seq<char>)| p.0).drop_last() =~= all.take(
                k as int,
            ).map_values(|p: (Seq<char>, Seq<char>)| p.0));
            assert(t.map_values(|p: (Seq<char>, Seq<char>)| p.1).drop_last() =~= all.take(
                k as int,
            ).map_values(|p: (Seq<char>, Seq<char>)| p.1));
        }
        push_unique_text(&mut projected_claims, pairs[k].claim_id.as_str());
        push_unique_text(&mut projected_evidence, pairs[k].evidence_ref.as_str());
        k = k + 1;
    }
    assert(all.take(pairs@.len() as int) =~= all);
    assert(texts(projected_claims@) == projected_claims@.map_values(|s: String| s@));
    assert(texts(projected_evidence@) == projected_evidence@.map_values(|s: String| s@));
    if !same_texts(projected_claims.as_slice(), claim_ids.as_slice()) || !same_texts(
        projected_evidence.as_slice(),
        evidence_refs.as_slice(),
    ) {
        return Err(
            RendererServiceError::new(
                RendererServiceErrorCode::TraceabilityIncomplete,
                operation,
                "claimIds/evidenceRefs 必须是 provenance 对的有序唯一投影。",
            ),
        );
    }
    Ok(SceneTraceabilityData { provenance: pairs, claim_ids, evidence_refs })
}

/// The provenance pairs of a list of items (see [`provenance_items_outcome`]).
fn provenance_pairs(items: &Vec<ProvenanceItem>, operation: RendererOperation) -> (result: Result<
    Vec<ProvenanceReferenceData>,
    RendererServiceError,
>)
    ensures
        match provenance_items_outcome(items@) {
            Ok(pairs) => result matches Ok(found) && references_view(found@) == pairs,
            Err((code, message)) => {
                &&& result matches Err(error)
                &&& error.code == code
                &&& error.operation == operation
                &&& error.message@ == message
                &&& !error.retryable
            },
        },
{
    let mut pairs: Vec<ProvenanceReferenceData> = Vec::new();
    let mut k: usize = 0;
    assert(items@.take(0) =~= Seq::<ProvenanceItem>::empty());
    assert(references_view(pairs@) =~= Seq::<(Seq<char>, Seq<char>)>::empty());
    while k < items.len()
        invariant
            0 <= k <= items@.len(),
            provenance_items_outcome(items@.take(k as int)) == Ok::<
                _,
                (RendererServiceErrorCode, Seq<char>),
            >(references_view(pairs@)),
        decreases items@.len() - k,
    {
        let item = &items[k];
        proof {
            assert(items@.take(k + 1).drop_last() =~= items@.take(k as int));
            assert(items@.take(k + 1).last() == *item);
        }
        if !required_text(&item.claim_id) {
            proof {
                lemma_items_refusal_persists(items@, k + 1);
            }
            return Err(contract_error(operation, "缺少字符串字段 claimId。"));
        }
        if !required_text(&item.evidence_ref) {
            proof {
                lemma_items_refusal_persists(items@, k + 1);
            }
            return Err(contract_error(operation, "缺少字符串字段 evidenceRef。"));
        }
        let claim = match &item.claim_id {
            Some(text) => text,
            None => {
                return Err(contract_error(operation, "缺少字符串字段 claimId。"));
            },
        };
        let evidence = match &item.evidence_ref {
            Some(text) => text,
            None => {
                return Err(contract_error(operation, "缺少字符串字段 evidenceRef。"));
            },
        };
        if claim.as_str().as_bytes().len() > 512 || evidence.as_str().as_bytes().len() > 512 {
            proof {
                lemma_items_refusal_persists(items@, k + 1);
            }
            return Err(
                RendererServiceError::new(
                    RendererServiceErrorCode::TraceabilityIncomplete,
                    operation,
                    "场景 provenance 字段超出 512 字符上限。",
                ),
            );
        }
        let ghost before = references_view(pairs@);
        let mut present = false;
        let mut q: usize = 0;
        while q < pairs.len()
            invariant
                before == references_view(pairs@),
                0 <= q <= pairs@.len(),
                present == exists|j: int| 0 <= j < q && before[j] == (claim@, evidence@),
            decreases pairs@.len() - q,
        {
            assert(before[q as int] == reference_view(pairs@[q as int]));
            if same_text(pairs[q].claim_id.as_str(), claim.as_str()) && same_text(
                pairs[q].evidence_ref.as_str(),
                evidence.as_str(),
            ) {
                present = true;
            }
            q = q + 1;
        }
        if present {
            proof {
                assert(before.contains((claim@, evidence@)));
                lemma_items_refusal_persists(items@, k + 1);
            }
            return Err(
                RendererServiceError::new(
                    RendererServiceErrorCode::TraceabilityIncomplete,
                    operation,
                    "场景 provenance 对必须唯一。",
                ),
            );
        }
        pairs.push(ProvenanceReferenceData { claim_id: claim.clone(), evidence_ref: evidence.clone() });
        assert(references_view(pairs@) =~= before.push((claim@, evidence@)));
        k = k + 1;
    }
    assert(items@.take(items@.len() as int) =~= items@);
    Ok(pairs)
}

/// Once an item is refused, the whole list is refused the same way.
proof fn lemma_items_refusal_persists(items: Seq<ProvenanceItem>, k: int)
    requires
        0 < k <= items.len(),
        provenance_items_outcome(items.take(k)) is Err,
    ensures
        provenance_items_outcome(items) == provenance_items_outcome(items.take(k)),
    decreases items.len() - k,
{
    if k == items.len() {
        assert(items.take(k) =~= items);
    } else {
        assert(items.take(k + 1).drop_last() =~= items.take(k));
        lemma_items_refusal_persists(items, k + 1);
    }
}


/// The provenance of the selected scenes, each pair once, in order of first
/// appearance; scenes not passed contribute nothing.
pub fn target_provenance(scenes: &[Vec<ProvenanceReferenceData>]) -> (provenance: Vec<
    ProvenanceReferenceData,
>)
    ensures
        references_view(provenance@) == scenes_provenance(scenes@),
{
    let mut provenance: Vec<ProvenanceReferenceData> = Vec::new();
    let mut i: usize = 0;
    assert(references_view(provenance@) =~= Seq::<(Seq<char>, Seq<char>)>::empty());
    while i < scenes.len()
        invariant
            0 <= i <= scenes@.len(),
            references_view(provenance@) == scenes_provenance(scenes@.take(i as int)),
        decreases scenes@.len() - i,
    {
        let pairs = &scenes[i];
        let ghost start = references_view(provenance@);
        let mut k: usize = 0;
        while k < pairs.len()
            invariant
                0 <= k <= pairs@.len(),
                references_view(provenance@) == union_in_order(
                    start,
                    references_view(pairs@.take(k as int)),
                ),
            decreases pairs@.len() - k,
        {
            let pair = &pairs[k];
            let ghost before = references_view(provenance@);
            let mut present = false;
            let mut q: usize = 0;
            while q < provenance.len()
                invariant
                    before == references_view(provenance@),
                    0 <= q <= provenance@.len(),
                    present == exists|j: int| 0 <= j < q && before[j] == reference_view(*pair),
                decreases provenance@.len() - q,
            {
                assert(before[q as int] == reference_view(provenance@[q as int]));
                if same_text(provenance[q].claim_id.as_str(), pair.claim_id.as_str()) && same_text(
                    provenance[q].evidence_ref.as_str(),
                    pair.evidence_ref.as_str(),
                ) {
                    present = true;
                }
                q = q + 1;
            }
            assert(references_view(pairs@.take(k + 1)).drop_last() =~= references_view(
                pairs@.take(k as int),
            ));
            assert(references_view(pairs@.take(k + 1)).last() == reference_view(*pair));
            if !present {
                provenance.push(
                    ProvenanceReferenceData {
                        claim_id: pair.claim_id.clone(),
                        evidence_ref: pair.evidence_ref.clone(),
                    },
                );
                assert(references_view(provenance@) =~= before.push(reference_view(*pair)));
            } else {
                assert(before.contains(reference_view(*pair)));
            }
            k = k + 1;
        }
        assert(pairs@.take(pairs@.len() as int) =~= pairs@);
        assert(scenes@.take(i + 1).drop_last() =~= scenes@.take(i as int));
        i = i + 1;
    }
    assert(scenes@.take(scenes@.len() as int) =~= scenes@);
    provenance
}

/// The provenance of scenes, each pair once, in order of first appearance.
pub open spec fn scenes_provenance(scenes: Seq<Vec<ProvenanceReferenceData>>) -> Seq<
    (Seq<char>, Seq<char>),
>
    decreases scenes.len(),
{
    if scenes.len() == 0 {
        Seq::empty()
    } else {
        union_in_order(scenes_provenance(scenes.drop_last()), references_view(scenes.last()@))
    }
}

/// The stable identifier of a render job's output with `role`: `artifact_render_`
/// and the lowercase hexadecimal SHA-256 of a versioned tag, the job and the role.
pub open spec fn render_artifact_id_spec(job_id: Seq<char>, role: Seq<char>) -> Seq<char> {
    "artifact_render_"@ + hex_lower(sha256_spec(encode_utf8("renderer-v1\0"@ + job_id + "\0"@ + role)))
}

/// Computes [`render_artifact_id_spec`].
pub fn stable_render_artifact_id(job_id: &str, role: &str) -> (id: String)
    ensures
        id@ == render_artifact_id_spec(job_id@, role@),
{
    let mut preimage = String::from_str("renderer-v1\0");
    preimage.append(job_id);
    preimage.append("\0");
    preimage.append(role);
    let digest = sha256_digest(preimage.as_str().as_bytes());
    let hex = lowercase_hex(&digest);
    let mut id = String::from_str("artifact_render_");
    id.append(hex.as_str());
    id
}

/// The identifier of a scene snapshot: `snapshot_` and the lowercase
/// hexadecimal SHA-256 of the project, the timeline's content hash and the
/// scene, separated by NUL characters.
pub open spec fn snapshot_id_spec(project_id: Seq<char>, content_hash: Seq<char>, scene_id: Seq<char>) -> Seq<
    char,
> {
    "snapshot_"@ + hex_lower(sha256_spec(encode_utf8(project_id + "\0"@ + content_hash + "\0"@ + scene_id)))
}

/// Computes [`snapshot_id_spec`].
pub fn scene_snapshot_id(project_id: &str, content_hash: &str, scene_id: &str) -> (id: String)
    ensures
        id@ == snapshot_id_spec(project_id@, content_hash@, scene_id@),
{
    let mut preimage = String::from_str(project_id);
    preimage.append("\0");
    preimage.append(content_hash);
    preimage.append("\0");
    preimage.append(scene_id);
    let digest = sha256_digest(preimage.as_str().as_bytes());
    let hex = lowercase_hex(&digest);
    let mut id = String::from_str("snapshot_");
    id.append(hex.as_str());
    id
}

/// The approved-input record of the timeline a render consumes.
pub fn approved_input(input: &RendererTimelineInputData) -> (approved: ApprovedArtifactInputData)
    ensures
        approved.ref_id@ == "renderer_timeline_"@ + input.artifact_id@,
        approved.kind@ == "timeline"@,
        approved.artifact_id == input.artifact_id,
        approved.source_run_id == input.run_id,
        approved.review_record_id == input.review_record_id,
        approved.content_hash == input.content_hash,
        approved.claim_ids@ == input.claim_ids@,
        approved.evidence_refs@ == input.evidence_refs@,
{
    let mut ref_id = String::from_str("renderer_timeline_");
    ref_id.append(input.artifact_id.as_str());
    ApprovedArtifactInputData {
        ref_id,
        kind: String::from_str("timeline"),
        artifact_id: input.artifact_id.clone(),
        source_run_id: input.run_id.clone(),
        review_record_id: input.review_record_id.clone(),
        content_hash: input.content_hash.clone(),
        claim_ids: copy_texts(&input.claim_ids),
        evidence_refs: copy_texts(&input.evidence_refs),
    }
}

/// The most scenes one render accepts.
pub const RENDERER_MAX_SCENES: usize = 254;

/// The artifacts a render produces besides its scene snapshots: the video and the log.
pub const RENDER_FIXED_ARTIFACTS: usize = 2;

/// The most artifacts one job may record.
pub const MAX_JOB_ARTIFACTS: usize = 256;

/// How many scenes a render target covers: one for a scene, the timeline's
/// scene count (if it has a scene track) for the timeline.
pub open spec fn target_scene_count(target: RenderTargetData, timeline_scene_count: Option<usize>) -> Option<
    int,
> {
    match target {
        RenderTargetData::Scene { .. } => Some(1),
        RenderTargetData::Timeline => match timeline_scene_count {
            Some(n) => Some(n as int),
            None => None,
        },
    }
}

/// Checks that a render target's scenes and the fixed outputs fit one job:
/// 1 to 254 scenes.
pub fn validate_target_scene_capacity(
    target: &RenderTargetData,
    timeline_scene_count: Option<usize>,
    operation: RendererOperation,
) -> (result: Result<usize, RendererServiceError>)
    ensures
        match target_scene_count(*target, timeline_scene_count) {
            None => result matches Err(error) && error.code
                == RendererServiceErrorCode::ContractViolation && error.message@
                == "Timeline is missing sceneTrack."@,
            Some(count) => if 1 <= count <= RENDERER_MAX_SCENES && count + RENDER_FIXED_ARTIFACTS
                <= MAX_JOB_ARTIFACTS {
                result matches Ok(n) && n == count
            } else {
                result matches Err(error) && error.code
                    == RendererServiceErrorCode::ResourceLimitExceeded && error.message@
                    == "Renderer accepts 1..=254 scenes so the immutable outputs fit the Job/StageRun 256 Artifact limit."@
            },
        },
        result matches Err(error) ==> error.operation == operation,
{
    let scene_count: usize = match target {
        RenderTargetData::Scene { .. } => 1,
        RenderTargetData::Timeline => match timeline_scene_count {
            Some(n) => n,
            None => {
                return Err(contract_error(operation, "Timeline is missing sceneTrack."));
            },
        },
    };
    let fits = match scene_count.checked_add(RENDER_FIXED_ARTIFACTS) {
        Some(count) => count <= MAX_JOB_ARTIFACTS,
        None => false,
    };
    if scene_count == 0 || scene_count > RENDERER_MAX_SCENES || !fits {
        return Err(
            RendererServiceError::new(
                RendererServiceErrorCode::ResourceLimitExceeded,
                operation,
                "Renderer accepts 1..=254 scenes so the immutable outputs fit the Job/StageRun 256 Artifact limit.",
            ),
        );
    }
    Ok(scene_count)
}

/// The canvas a render draws on.
#[derive(Debug, Clone, Copy, PartialEq, Eq, Structural)]
pub struct RenderCanvasData {
    pub width: u32,
    pub height: u32,
    pub frame_rate_numerator: u32,
    pub frame_rate_denominator: u32,
}

/// How a render is encoded.
#[derive(Debug, Clone, PartialEq, Eq)]
pub struct RenderConfigData {
    pub canvas: RenderCanvasData,
    pub video_codec: String,
    pub audio_codec: String,
    pub pixel_format: String,
    pub preset: String,
    pub crf: u8,
    pub max_duration_ms: u64,
    pub max_temporary_bytes: u64,
    pub timeout_ms: u64,
}

/// The only encoding a render may use: H.264 video, AAC audio, 4:2:0 pixels,
/// one of four presets, a quality of 18 to 35, at most a day of media and a
/// timeout of 1 second to 2 hours.
pub open spec fn render_config_allowed(config: RenderConfigData) -> bool {
    &&& config.video_codec@ == "libx264"@
    &&& config.audio_codec@ == "aac"@
    &&& config.pixel_format@ == "yuv420p"@
    &&& (config.preset@ == "veryfast"@ || config.preset@ == "faster"@ || config.preset@ == "fast"@
        || config.preset@ == "medium"@)
    &&& 18 <= config.crf <= 35
    &&& 0 < config.max_duration_ms <= 86_400_000
    &&& 1_000 <= config.timeout_ms <= 7_200_000
}

/// A render request of a timeline stage, a run identifier that begins with
/// `run_` and has at least 5 bytes, an idempotency key of at least 8 bytes,
/// and an allowed configuration.
pub open spec fn render_request_allowed(
    stage_id: Seq<char>,
    run_id: Seq<char>,
    idempotency_key: Seq<char>,
    config: RenderConfigData,
) -> bool {
    &&& stage_id == "timeline"@
    &&& encode_utf8(run_id).len() >= 5
    &&& crate::identifiers::has_prefix(run_id, "run_"@)
    &&& encode_utf8(idempotency_key).len() >= 8
    &&& render_config_allowed(config)
}

/// Checks the identity and configuration of a render request.
pub fn validate_request_shape(
    timeline_stage_id: &str,
    run_id: &str,
    idempotency_key: &str,
    config: &RenderConfigData,
    operation: RendererOperation,
) -> (result: Result<(), RendererServiceError>)
    ensures
        result is Ok <==> render_request_allowed(timeline_stage_id@, run_id@, idempotency_key@, *config),
        result matches Err(error) ==> error.code == RendererServiceErrorCode::InvalidRequest
            && error.operation == operation && error.message@
            == "Renderer 请求包含未授权配置或无效身份。"@,
{
    let run_chars = chars_of(run_id);
    let prefix = chars_of("run_");
    let preset = config.preset.as_str();
    if !same_text(timeline_stage_id, "timeline") || run_id.as_bytes().len() < 5
        || !crate::identifiers::chars_start_with(&run_chars, &prefix)
        || idempotency_key.as_bytes().len() < 8 || !same_text(config.video_codec.as_str(), "libx264")
        || !same_text(config.audio_codec.as_str(), "aac") || !same_text(
        config.pixel_format.as_str(),
        "yuv420p",
    ) || !(same_text(preset, "veryfast") || same_text(preset, "faster") || same_text(preset, "fast")
        || same_text(preset, "medium")) || !(18 <= config.crf && config.crf <= 35)
        || config.max_duration_ms == 0 || config.max_duration_ms > 86_400_000 || config.timeout_ms
        < 1_000 || config.timeout_ms > 7_200_000 {
        return Err(
            RendererServiceError::new(
                RendererServiceErrorCode::InvalidRequest,
                operation,
                "Renderer 请求包含未授权配置或无效身份。",
            ),
        );
    }
    Ok(())
}

/// The default encoding for a canvas.
pub open spec fn default_render_config(canvas: RenderCanvasData, config: RenderConfigData) -> bool {
    &&& config.canvas == canvas
    &&& config.video_codec@ == "libx264"@
    &&& config.audio_codec@ == "aac"@
    &&& config.pixel_format@ == "yuv420p"@
    &&& config.preset@ == "fast"@
    &&& config.crf == 23
    &&& config.max_duration_ms == 86_400_000
    &&& config.max_temporary_bytes == 1024 * 1024 * 1024
    &&& config.timeout_ms == 600_000
}

/// The default encoding for the canvas of a timeline.
pub fn render_config_from_timeline(canvas: RenderCanvasData) -> (config: RenderConfigData)
    ensures
        default_render_config(canvas, config),
{
    RenderConfigData {
        canvas,
        video_codec: String::from_str("libx264"),
        audio_codec: String::from_str("aac"),
        pixel_format: String::from_str("yuv420p"),
        preset: String::from_str("fast"),
        crf: 23,
        max_duration_ms: 86_400_000,
        max_temporary_bytes: 1024 * 1024 * 1024,
        timeout_ms: 600_000,
    }
}

/// The encoding of scene previews: the default one on a 320x180 canvas at 30
/// frames per second.
pub fn scene_preview_config() -> (config: RenderConfigData)
    ensures
        default_render_config(
            RenderCanvasData {
                width: 320,
                height: 180,
                frame_rate_numerator: 30,
                frame_rate_denominator: 1,
            },
            config,
        ),
{
    render_config_from_timeline(
        RenderCanvasData { width: 320, height: 180, frame_rate_numerator: 30, frame_rate_denominator: 1 },
    )
}

/// The renderer error code a project error code is reported as.
pub open spec fn renderer_code_for_project(code: ProjectErrorCode) -> RendererServiceErrorCode {
    match code {
        ProjectErrorCode::ProjectNotFound | ProjectErrorCode::MarkerMissing => {
            RendererServiceErrorCode::ProjectNotFound
        },
        ProjectErrorCode::IoError => RendererServiceErrorCode::Io,
        _ => RendererServiceErrorCode::InvalidRequest,
    }
}

/// Reports a failure to open the project of a render, retryable when it is I/O.
pub fn map_project_error(error: ProjectServiceError, operation: RendererOperation) -> (mapped:
    RendererServiceError)
    ensures
        mapped.code == renderer_code_for_project(error.code),
        mapped.operation == operation,
        mapped.message == error.message,
        mapped.retryable == (mapped.code == RendererServiceErrorCode::Io),
        mapped.stage_id is None,
        mapped.run_id is None,
        mapped.artifact_id is None,
{
    let code = match error.code {
        ProjectErrorCode::ProjectNotFound | ProjectErrorCode::MarkerMissing => {
            RendererServiceErrorCode::ProjectNotFound
        },
        ProjectErrorCode::IoError => RendererServiceErrorCode::Io,
        _ => RendererServiceErrorCode::InvalidRequest,
    };
    let retryable = match code {
        RendererServiceErrorCode::Io => true,
        _ => false,
    };
    RendererServiceError {
        code,
        operation,
        message: error.message,
        retryable,
        stage_id: None,
        run_id: None,
        artifact_id: None,
    }
}

/// The renderer error code a storage error code is reported as.
pub open spec fn renderer_code_for_storage(code: StorageErrorCode) -> RendererServiceErrorCode {
    match code {
        StorageErrorCode::ArtifactNotFound | StorageErrorCode::SourceNotFound => {
            RendererServiceErrorCode::ArtifactNotFound
        },
        StorageErrorCode::ContentCorrupt | StorageErrorCode::SourceChanged => {
            RendererServiceErrorCode::InputHashMismatch
        },
        StorageErrorCode::SourceTooLarge => RendererServiceErrorCode::ResourceLimitExceeded,
        StorageErrorCode::IoError | StorageErrorCode::IndexUnavailable => RendererServiceErrorCode::Io,
        _ => RendererServiceErrorCode::InvalidRequest,
    }
}

/// Reports a storage failure of a render, retryable when it is I/O.
pub fn map_storage_error(error: StorageServiceError, operation: RendererOperation) -> (mapped:
    RendererServiceError)
    ensures
        mapped.code == renderer_code_for_storage(error.code),
        mapped.operation == operation,
        mapped.message == error.message,
        mapped.retryable == (mapped.code == RendererServiceErrorCode::Io),
        mapped.stage_id is None,
        mapped.run_id is None,
        mapped.artifact_id is None,
{
    let code = match error.code {
        StorageErrorCode::ArtifactNotFound | StorageErrorCode::SourceNotFound => {
            RendererServiceErrorCode::ArtifactNotFound
        },
        StorageErrorCode::ContentCorrupt | StorageErrorCode::SourceChanged => {
            RendererServiceErrorCode::InputHashMismatch
        },
        StorageErrorCode::SourceTooLarge => RendererServiceErrorCode::ResourceLimitExceeded,
        StorageErrorCode::IoError | StorageErrorCode::IndexUnavailable => RendererServiceErrorCode::Io,
        _ => RendererServiceErrorCode::InvalidRequest,
    };
    let retryable = match code {
        RendererServiceErrorCode::Io => true,
        _ => false,
    };
    RendererServiceError {
        code,
        operation,
        message: error.message,
        retryable,
        stage_id: None,
        run_id: None,
        artifact_id: None,
    }
}

/// The renderer error code a workflow error code is reported as.
pub open spec fn renderer_code_for_workflow(code: WorkflowErrorCode) -> RendererServiceErrorCode {
    match code {
        WorkflowErrorCode::StageNotReady => RendererServiceErrorCode::InputStale,
        WorkflowErrorCode::ArtifactMismatch => RendererServiceErrorCode::InputHashMismatch,
        WorkflowErrorCode::ProjectNotFound => RendererServiceErrorCode::ProjectNotFound,
        WorkflowErrorCode::ProjectIdentityMismatch => RendererServiceErrorCode::ProjectIdentityMismatch,
        WorkflowErrorCode::IoError => RendererServiceErrorCode::Io,
        _ => RendererServiceErrorCode::ReviewRequired,
    }
}

/// Reports a workflow failure of a render, retryable when it is I/O.
pub fn map_workflow_error(error: WorkflowServiceError, operation: RendererOperation) -> (mapped:
    RendererServiceError)
    ensures
        mapped.code == renderer_code_for_workflow(error.code),
        mapped.operation == operation,
        mapped.message == error.message,
        mapped.retryable == (mapped.code == RendererServiceErrorCode::Io),
        mapped.stage_id is None,
        mapped.run_id is None,
        mapped.artifact_id is None,
{
    let code = match error.code {
        WorkflowErrorCode::StageNotReady => RendererServiceErrorCode::InputStale,
        WorkflowErrorCode::ArtifactMismatch => RendererServiceErrorCode::InputHashMismatch,
        WorkflowErrorCode::ProjectNotFound => RendererServiceErrorCode::ProjectNotFound,
        WorkflowErrorCode::ProjectIdentityMismatch => RendererServiceErrorCode::ProjectIdentityMismatch,
        WorkflowErrorCode::IoError => RendererServiceErrorCode::Io,
        _ => RendererServiceErrorCode::ReviewRequired,
    };
    let retryable = match code {
        RendererServiceErrorCode::Io => true,
        _ => false,
    };
    RendererServiceError {
        code,
        operation,
        message: error.message,
        retryable,
        stage_id: None,
        run_id: None,
        artifact_id: None,
    }
}


/// The content security policy of scene snapshots: nothing loads but inline
/// styles, data images and `narracut:` media and fonts.
pub const SNAPSHOT_CSP: &'static str = "default-src 'none'; img-src data: narracut:; media-src narracut:; style-src 'unsafe-inline'; font-src narracut:; script-src 'none'; connect-src 'none'; frame-ancestors 'none'; base-uri 'none'; form-action 'none'";

/// The text of [`SNAPSHOT_CSP`].
pub open spec fn snapshot_csp_spec() -> Seq<char> {
    SNAPSHOT_CSP@
}

/// The texts of `items` joined with `separator`.
pub open spec fn join_texts(items: Seq<Seq<char>>, separator: Seq<char>) -> Seq<char>
    decreases items.len(),
{
    if items.len() == 0 {
        Seq::empty()
    } else if items.len() == 1 {
        items[0]
    } else {
        join_texts(items.drop_last(), separator) + separator + items.last()
    }
}

/// The strings of `items` joined with `separator`.
pub fn join_strings(items: &[String], separator: &str) -> (joined: String)
    ensures
        joined@ == join_texts(texts(items@), separator@),
{
    let mut joined = String::new();
    let mut i: usize = 0;
    while i < items.len()
        invariant
            0 <= i <= items@.len(),
            joined@ == join_texts(texts(items@.take(i as int)), separator@),
        decreases items@.len() - i,
    {
        assert(texts(items@.take(i + 1)).drop_last() =~= texts(items@.take(i as int)));
        assert(texts(items@.take(i + 1)).last() == items@[i as int]@);
        if i > 0 {
            joined.append(separator);
        } else {
            assert(texts(items@.take(1)) =~= seq![items@[0]@]);
        }
        joined.append(items[i].as_str());
        i = i + 1;
    }
    assert(items@.take(items@.len() as int) =~= items@);
    joined
}

/// The HTML of a scene snapshot: a fixed page on the canvas, the safe area
/// as a box, and the escaped identity, title, role, claims and evidence.
pub open spec fn scene_html_spec(
    snapshot_id: Seq<char>,
    scene_id: Seq<char>,
    title: Seq<char>,
    role: Seq<char>,
    width: u32,
    height: u32,
    x: u64,
    y: u64,
    w: u64,
    h: u64,
    claims: Seq<Seq<char>>,
    evidence: Seq<Seq<char>>,
) -> Seq<char> {
    "<!doctype html><html lang=\"zh-CN\"><head><meta charset=\"utf-8\"><meta http-equiv=\"Content-Security-Policy\" content=\""@
        + snapshot_csp_spec()
        + "\"><meta name=\"viewport\" content=\"width=device-width,initial-scale=1\"><style>*{box-sizing:border-box}html,body{margin:0;width:100%;height:100%;overflow:hidden;background:#080c14;color:#f8fafc;font-family:system-ui,sans-serif}main{position:relative;width:"@
        + decimal(width as nat)
        + "px;height:"@
        + decimal(height as nat)
        + "px;background:linear-gradient(145deg,#101827,#071018);display:grid;place-items:center}article{position:absolute;left:"@
        + decimal(x as nat)
        + "px;top:"@
        + decimal(y as nat)
        + "px;width:"@
        + decimal(w as nat)
        + "px;height:"@
        + decimal(h as nat)
        + "px;border:2px solid rgba(103,232,249,.45);padding:48px;display:flex;flex-direction:column;justify-content:center}h1{font-size:72px;margin:0 0 24px;line-height:1.1}p{font-size:30px;color:#a5f3fc;margin:0}footer{position:absolute;bottom:24px;left:48px;font-size:14px;color:#94a3b8}</style></head><body><main data-snapshot-id=\""@
        + escape_html_spec(snapshot_id)
        + "\" data-scene-id=\""@
        + escape_html_spec(scene_id)
        + "\"><article><h1>"@
        + escape_html_spec(title)
        + "</h1><p>"@
        + escape_html_spec(role)
        + "</p></article><footer>claim: "@
        + escape_html_spec(join_texts(claims, ", "@))
        + " · evidence: "@
        + escape_html_spec(join_texts(evidence, ", "@))
        + "</footer></main></body></html>"@
}

/// Where `hay` is `a`, `needle`, `b` joined, `needle` occurs in it.
proof fn lemma_joined_contains(hay: Seq<char>, a: Seq<char>, needle: Seq<char>, b: Seq<char>)
    requires
        hay == a + needle + b,
    ensures
        text_contains(hay, needle),
{
    assert(hay.subrange(a.len() as int, (a.len() + needle.len()) as int) =~= needle);
    assert(occurs_at(hay, needle, a.len() as int));
}

/// Where `hay` is `a`, `m`, `piece` and `b` joined and `piece` is `p` then
/// `q`, `m` followed by `p` occurs in it.
proof fn lemma_prefix_of_piece_contained(
    hay: Seq<char>,
    a: Seq<char>,
    m: Seq<char>,
    piece: Seq<char>,
    p: Seq<char>,
    q: Seq<char>,
    b: Seq<char>,
)
    requires
        hay == a + m + piece + b,
        piece == p + q,
    ensures
        text_contains(hay, m + p),
{
    assert(hay =~= a + (m + p) + (q + b));
    lemma_joined_contains(hay, a, m + p, q + b);
}

/// The snapshot places its article at the safe area: left at the safe area's
/// x offset, top at its y offset, with the safe area's width and height
/// ("left:{x}px;top:{y}px;width:{w}px;height:{h}").
pub proof fn lemma_scene_html_places_article_at_safe_area(
    snapshot_id: Seq<char>,
    scene_id: Seq<char>,
    title: Seq<char>,
    role: Seq<char>,
    width: u32,
    height: u32,
    x: u64,
    y: u64,
    w: u64,
    h: u64,
    claims: Seq<Seq<char>>,
    evidence: Seq<Seq<char>>,
)
    ensures
        text_contains(
            scene_html_spec(snapshot_id, scene_id, title, role, width, height, x, y, w, h, claims, evidence),
            "left:"@ + decimal(x as nat) + "px;top:"@ + decimal(y as nat) + "px;width:"@ + decimal(w as nat)
                + "px;height:"@ + decimal(h as nat),
        ),
{
    let lead = "px;background:linear-gradient(145deg,#101827,#071018);display:grid;place-items:center}article{position:absolute;left:"@;
    reveal_strlit("px;background:linear-gradient(145deg,#101827,#071018);display:grid;place-items:center}article{position:absolute;left:");
    reveal_strlit("left:");
    assert(lead =~= lead.subrange(0, lead.len() - 5) + "left:"@);
    let a = "<!doctype html><html lang=\"zh-CN\"><head><meta charset=\"utf-8\"><meta http-equiv=\"Content-Security-Policy\" content=\""@
        + snapshot_csp_spec()
        + "\"><meta name=\"viewport\" content=\"width=device-width,initial-scale=1\"><style>*{box-sizing:border-box}html,body{margin:0;width:100%;height:100%;overflow:hidden;background:#080c14;color:#f8fafc;font-family:system-ui,sans-serif}main{position:relative;width:"@
        + decimal(width as nat)
        + "px;height:"@
        + decimal(height as nat)
        + lead.subrange(0, lead.len() - 5);
    let needle = "left:"@ + decimal(x as nat) + "px;top:"@ + decimal(y as nat) + "px;width:"@ + decimal(w as nat)
        + "px;height:"@ + decimal(h as nat);
    let b = "px;border:2px solid rgba(103,232,249,.45);padding:48px;display:flex;flex-direction:column;justify-content:center}h1{font-size:72px;margin:0 0 24px;line-height:1.1}p{font-size:30px;color:#a5f3fc;margin:0}footer{position:absolute;bottom:24px;left:48px;font-size:14px;color:#94a3b8}</style></head><body><main data-snapshot-id=\""@
        + escape_html_spec(snapshot_id)
        + "\" data-scene-id=\""@
        + escape_html_spec(scene_id)
        + "\"><article><h1>"@
        + escape_html_spec(title)
        + "</h1><p>"@
        + escape_html_spec(role)
        + "</p></article><footer>claim: "@
        + escape_html_spec(join_texts(claims, ", "@))
        + " · evidence: "@
        + escape_html_spec(join_texts(evidence, ", "@))
        + "</footer></main></body></html>"@;
    let hay = scene_html_spec(snapshot_id, scene_id, title, role, width, height, x, y, w, h, claims, evidence);
    assert(hay =~= a + needle + b);
    lemma_joined_contains(hay, a, needle, b);
}

/// The snapshot's page is the canvas: its width is the canvas's width and its
/// height the canvas's height ("{width}px;height:{height}px").
#[verifier::rlimit(80)]
#[verifier::spinoff_prover]
pub proof fn lemma_scene_html_page_is_canvas(
    snapshot_id: Seq<char>,
    scene_id: Seq<char>,
    title: Seq<char>,
    role: Seq<char>,
    width: u32,
    height: u32,
    x: u64,
    y: u64,
    w: u64,
    h: u64,
    claims: Seq<Seq<char>>,
    evidence: Seq<Seq<char>>,
)
    ensures
        text_contains(
            scene_html_spec(snapshot_id, scene_id, title, role, width, height, x, y, w, h, claims, evidence),
            decimal(width as nat) + "px;height:"@ + decimal(height as nat) + "px;background:"@,
        ),
{
    let lead = "px;background:linear-gradient(145deg,#101827,#071018);display:grid;place-items:center}article{position:absolute;left:"@;
    reveal_strlit("px;background:linear-gradient(145deg,#101827,#071018);display:grid;place-items:center}article{position:absolute;left:");
    let b = "px;border:2px solid rgba(103,232,249,.45);padding:48px;display:flex;flex-direction:column;justify-content:center}h1{font-size:72px;margin:0 0 24px;line-height:1.1}p{font-size:30px;color:#a5f3fc;margin:0}footer{position:absolute;bottom:24px;left:48px;font-size:14px;color:#94a3b8}</style></head><body><main data-snapshot-id=\""@
        + escape_html_spec(snapshot_id)
        + "\" data-scene-id=\""@
        + escape_html_spec(scene_id)
        + "\"><article><h1>"@
        + escape_html_spec(title)
        + "</h1><p>"@
        + escape_html_spec(role)
        + "</p></article><footer>claim: "@
        + escape_html_spec(join_texts(claims, ", "@))
        + " · evidence: "@
        + escape_html_spec(join_texts(evidence, ", "@))
        + "</footer></main></body></html>"@;
    let hay = scene_html_spec(snapshot_id, scene_id, title, role, width, height, x, y, w, h, claims, evidence);
    reveal_strlit("px;background:");
    assert(lead =~= "px;background:"@ + lead.subrange(14, lead.len() as int));
    let page = "<!doctype html><html lang=\"zh-CN\"><head><meta charset=\"utf-8\"><meta http-equiv=\"Content-Security-Policy\" content=\""@
        + snapshot_csp_spec()
        + "\"><meta name=\"viewport\" content=\"width=device-width,initial-scale=1\"><style>*{box-sizing:border-box}html,body{margin:0;width:100%;height:100%;overflow:hidden;background:#080c14;color:#f8fafc;font-family:system-ui,sans-serif}main{position:relative;width:"@;
    let rest = decimal(x as nat) + "px;top:"@ + decimal(y as nat) + "px;width:"@ + decimal(w as nat) + "px;height:"@
        + decimal(h as nat) + b;
    assert(hay == page + decimal(width as nat) + "px;height:"@ + decimal(height as nat) + lead + rest);
    assert(hay =~= page + (decimal(width as nat) + "px;height:"@ + decimal(height as nat)) + lead + rest);
    lemma_prefix_of_piece_contained(
        hay,
        page,
        decimal(width as nat) + "px;height:"@ + decimal(height as nat),
        lead,
        "px;background:"@,
        lead.subrange(14, lead.len() as int),
        rest,
    );
}

/// Renders the HTML of a scene snapshot. A safe-area side that is missing
/// defaults to 0 for the offsets and to the canvas's size for the extent.
pub fn scene_html(
    snapshot_id: &str,
    scene_id: &str,
    title: &str,
    narrative_role: &str,
    canvas_width: u32,
    canvas_height: u32,
    safe_x: Option<u64>,
    safe_y: Option<u64>,
    safe_width: Option<u64>,
    safe_height: Option<u64>,
    claim_ids: &[String],
    evidence_refs: &[String],
) -> (html: String)
    ensures
        html@ == scene_html_spec(
            snapshot_id@,
            scene_id@,
            title@,
            narrative_role@,
            canvas_width,
            canvas_height,
            match safe_x { Some(v) => v, None => 0 },
            match safe_y { Some(v) => v, None => 0 },
            match safe_width { Some(v) => v, None => canvas_width as u64 },
            match safe_height { Some(v) => v, None => canvas_height as u64 },
            texts(claim_ids@),
            texts(evidence_refs@),
        ),
{
    let x = match safe_x {
        Some(v) => v,
        None => 0,
    };
    let y = match safe_y {
        Some(v) => v,
        None => 0,
    };
    let w = match safe_width {
        Some(v) => v,
        None => canvas_width as u64,
    };
    let h = match safe_height {
        Some(v) => v,
        None => canvas_height as u64,
    };
    let mut html = String::from_str("<!doctype html><html lang=\"zh-CN\"><head><meta charset=\"utf-8\"><meta http-equiv=\"Content-Security-Policy\" content=\"");
    html.append(SNAPSHOT_CSP);
    html.append("\"><meta name=\"viewport\" content=\"width=device-width,initial-scale=1\"><style>*{box-sizing:border-box}html,body{margin:0;width:100%;height:100%;overflow:hidden;background:#080c14;color:#f8fafc;font-family:system-ui,sans-serif}main{position:relative;width:");
    push_decimal(&mut html, canvas_width as u64);
    html.append("px;height:");
    push_decimal(&mut html, canvas_height as u64);
    html.append("px;background:linear-gradient(145deg,#101827,#071018);display:grid;place-items:center}article{position:absolute;left:");
    push_decimal(&mut html, x);
    html.append("px;top:");
    push_decimal(&mut html, y);
    html.append("px;width:");
    push_decimal(&mut html, w);
    html.append("px;height:");
    push_decimal(&mut html, h);
    html.append("px;border:2px solid rgba(103,232,249,.45);padding:48px;display:flex;flex-direction:column;justify-content:center}h1{font-size:72px;margin:0 0 24px;line-height:1.1}p{font-size:30px;color:#a5f3fc;margin:0}footer{position:absolute;bottom:24px;left:48px;font-size:14px;color:#94a3b8}</style></head><body><main data-snapshot-id=\"");
    html.append(escape_html(snapshot_id).as_str());
    html.append("\" data-scene-id=\"");
    html.append(escape_html(scene_id).as_str());
    html.append("\"><article><h1>");
    html.append(escape_html(title).as_str());
    html.append("</h1><p>");
    html.append(escape_html(narrative_role).as_str());
    html.append("</p></article><footer>claim: ");
    html.append(escape_html(join_strings(claim_ids, ", ").as_str()).as_str());
    html.append(" · evidence: ");
    html.append(escape_html(join_strings(evidence_refs, ", ").as_str()).as_str());
    html.append("</footer></main></body></html>");
    html
}


/// `needle` occurs somewhere in `hay`.
pub open spec fn text_contains(hay: Seq<char>, needle: Seq<char>) -> bool {
    exists|i: int| occurs_at(hay, needle, i)
}

/// Whether `needle` occurs in `hay`.
pub fn chars_contain(hay: &[char], needle: &[char]) -> (result: bool)
    ensures
        result == text_contains(hay@, needle@),
{
    if needle.len() > hay.len() {
        assert forall|i: int| !occurs_at(hay@, needle@, i) by {}
        return false;
    }
    let last = hay.len() - needle.len();
    let mut i: usize = 0;
    while i <= last
        invariant
            last == hay@.len() - needle@.len(),
            0 <= i <= last + 1,
            forall|j: int| 0 <= j < i ==> !occurs_at(hay@, needle@, j),
        decreases last + 1 - i,
    {
        if occurs_at_exec(hay, needle, i) {
            return true;
        }
        if i == last {
            assert forall|j: int| !occurs_at(hay@, needle@, j) by {
                if 0 <= j <= last {
                    assert(j < i + 1);
                }
            }
            return false;
        }
        i = i + 1;
    }
    assert forall|j: int| !occurs_at(hay@, needle@, j) by {}
    false
}

/// The most bytes a snapshot's HTML may have.
pub const MAX_SNAPSHOT_BYTES: usize = 1024 * 1024;

/// Snapshot HTML is small enough and loads no script and no remote or local file.
pub open spec fn snapshot_html_acceptable_spec(html: Seq<char>) -> bool {
    &&& encode_utf8(html).len() <= MAX_SNAPSHOT_BYTES
    &&& !text_contains(html, "<script"@)
    &&& !text_contains(html, "http://"@)
    &&& !text_contains(html, "https://"@)
    &&& !text_contains(html, "file:"@)
}

/// Checks the HTML of a scene snapshot.
pub fn validate_snapshot_html(html: &str, operation: RendererOperation) -> (result: Result<
    (),
    RendererServiceError,
>)
    ensures
        result is Ok <==> snapshot_html_acceptable_spec(html@),
        result matches Err(error) ==> error.code == RendererServiceErrorCode::SnapshotTooLarge
            && error.operation == operation && error.message@
            == "Scene Snapshot 超出上限或包含禁止资源/脚本。"@,
{
    let chars = chars_of(html);
    if html.as_bytes().len() > MAX_SNAPSHOT_BYTES || chars_contain(&chars, &chars_of("<script"))
        || chars_contain(&chars, &chars_of("http://")) || chars_contain(&chars, &chars_of("https://"))
        || chars_contain(&chars, &chars_of("file:")) {
        return Err(
            RendererServiceError::new(
                RendererServiceErrorCode::SnapshotTooLarge,
                operation,
                "Scene Snapshot 超出上限或包含禁止资源/脚本。",
            ),
        );
    }
    Ok(())
}

/// A render must use the frozen timeline's exact canvas and frame rate, and
/// the timeline must not last longer than the render allows.
pub fn check_render_matches_timeline(
    config: &RenderConfigData,
    timeline_canvas: Option<RenderCanvasData>,
    duration_ms: u64,
    operation: RendererOperation,
) -> (result: Result<(), RendererServiceError>)
    ensures
        result is Ok <==> timeline_canvas == Some(config.canvas) && duration_ms
            <= config.max_duration_ms,
        result matches Err(error) ==> {
            &&& error.code == RendererServiceErrorCode::InvalidRequest
            &&& error.operation == operation
            &&& error.message@ == "渲染画布/帧率必须与冻结 Timeline 完全一致，且时长不能超过配置上限。"@
            &&& !error.retryable
        },
{
    let same_canvas = match timeline_canvas {
        Some(canvas) => canvas.width == config.canvas.width && canvas.height == config.canvas.height
            && canvas.frame_rate_numerator == config.canvas.frame_rate_numerator
            && canvas.frame_rate_denominator == config.canvas.frame_rate_denominator,
        None => false,
    };
    if !same_canvas || duration_ms > config.max_duration_ms {
        return Err(
            RendererServiceError::new(
                RendererServiceErrorCode::InvalidRequest,
                operation,
                "渲染画布/帧率必须与冻结 Timeline 完全一致，且时长不能超过配置上限。",
            ),
        );
    }
    Ok(())
}

/// What an upstream reference of a timeline says, and what the stored
/// artifact it names says, each where it is a text.
#[derive(Debug, Clone, PartialEq, Eq)]
pub struct UpstreamReferenceFacts {
    pub stage_id: String,
    pub run_id: Option<String>,
    pub content_hash: String,
    pub owner_project_id: String,
    pub artifact_project_id: Option<String>,
    pub artifact_stage_id: Option<String>,
    pub artifact_run_id: Option<String>,
    pub artifact_content_hash: Option<String>,
}

/// The stored artifact is the one the timeline froze: of the project, and of
/// the reference's stage, run and content.
pub open spec fn upstream_unchanged(facts: UpstreamReferenceFacts, project_id: Seq<char>) -> bool {
    &&& facts.owner_project_id@ == project_id
    &&& crate::storage_error::opt_view(facts.artifact_project_id) == Some(project_id)
    &&& crate::storage_error::opt_view(facts.artifact_stage_id) == Some(facts.stage_id@)
    &&& crate::storage_error::opt_view(facts.artifact_run_id) == crate::storage_error::opt_view(
        facts.run_id,
    )
    &&& crate::storage_error::opt_view(facts.artifact_content_hash) == Some(facts.content_hash@)
}

fn opt_same(a: &Option<String>, b: &Option<String>) -> (result: bool)
    ensures
        result == (crate::storage_error::opt_view(*a) == crate::storage_error::opt_view(*b)),
{
    match (a, b) {
        (Some(x), Some(y)) => same_text(x.as_str(), y.as_str()),
        (None, None) => true,
        _ => false,
    }
}

fn opt_is(a: &Option<String>, value: &str) -> (result: bool)
    ensures
        result == (crate::storage_error::opt_view(*a) == Some(value@)),
{
    match a {
        Some(x) => same_text(x.as_str(), value),
        None => false,
    }
}

/// Refuses an upstream artifact of a timeline whose identity or content
/// drifted from what the timeline froze.
pub fn check_upstream_reference(
    facts: &UpstreamReferenceFacts,
    artifact_id: &str,
    expected_project_id: &str,
    operation: RendererOperation,
) -> (result: Result<(), RendererServiceError>)
    ensures
        result is Ok <==> upstream_unchanged(*facts, expected_project_id@),
        result matches Err(error) ==> {
            &&& error.code == RendererServiceErrorCode::InputHashMismatch
            &&& error.operation == operation
            &&& error.message@ == "Timeline 的上游引用发生身份或哈希漂移。"@
            &&& crate::storage_error::opt_view(error.artifact_id) == Some(artifact_id@)
        },
{
    if !same_text(facts.owner_project_id.as_str(), expected_project_id) || !opt_is(
        &facts.artifact_project_id,
        expected_project_id,
    ) || !opt_is(&facts.artifact_stage_id, facts.stage_id.as_str()) || !opt_same(
        &facts.artifact_run_id,
        &facts.run_id,
    ) || !opt_is(&facts.artifact_content_hash, facts.content_hash.as_str()) {
        return Err(
            RendererServiceError::new(
                RendererServiceErrorCode::InputHashMismatch,
                operation,
                "Timeline 的上游引用发生身份或哈希漂移。",
            ).for_artifact(artifact_id),
        );
    }
    Ok(())
}

} // verus!
