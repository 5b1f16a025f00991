use vstd::prelude::*;
use vstd::string::StringSliceAdditionalSpecFns;
use vstd::utf8::encode_utf8;

use crate::identifiers::{all_distinct, strings_distinct, texts};
use crate::renderer_error::{RendererOperation, RendererServiceError, RendererServiceErrorCode};
use crate::renderer_rules::{
    references_view, scene_html, scene_html_spec, scene_snapshot_id, scene_traceability,
    scene_traceability_outcome, snapshot_html_acceptable_spec, snapshot_id_spec,
    validate_snapshot_html, ProvenanceReferenceData, RenderCanvasData, SceneProvenanceInput,
    SNAPSHOT_CSP,
};
use crate::storage_error::opt_view;
use crate::text::same_text;

verus! {

/// A field that should be an array of non-empty strings: not an array, or
/// its items, each a string or not.
#[derive(Debug, Clone, PartialEq, Eq)]
pub enum TextArrayField {
    NotArray,
    Items(Vec<Option<String>>),
}

/// Every item is a non-empty string.
pub open spec fn all_texts(items: Seq<Option<String>>) -> bool {
    forall|i: int| 0 <= i < items.len() ==> (#[trigger] items[i] matches Some(text) && text@.len() > 0)
}

/// The strings of a field whose items are all strings.
pub open spec fn item_texts(items: Seq<Option<String>>) -> Seq<Seq<char>> {
    items.map_values(|item: Option<String>| item.unwrap()@)
}

/// The strings of an array field, or why it is refused: not an array, an item
/// that is not a non-empty string, or a repeated value.
pub open spec fn text_array_outcome(field: TextArrayField, name: Seq<char>) -> Result<Seq<Seq<char>>, Seq<char>> {
    match field {
        TextArrayField::NotArray => Err("缺少数组字段 "@ + name + "。"@),
        TextArrayField::Items(items) => if !all_texts(items@) {
            Err(name + " 包含非字符串。"@)
        } else if !all_distinct(item_texts(items@)) {
            Err(name + " 包含重复值。"@)
        } else {
            Ok(item_texts(items@))
        },
    }
}

/// Reads an array field of distinct non-empty strings (see
/// [`text_array_outcome`]); a refusal is a contract violation.
pub fn text_array(field: TextArrayField, name: &str, operation: RendererOperation) -> (result: Result<
    Vec<String>,
    RendererServiceError,
>)
    ensures
        match text_array_outcome(field, name@) {
            Ok(values) => result matches Ok(found) && texts(found@) == values,
            Err(message) => result matches Err(error) && error.code
                == RendererServiceErrorCode::ContractViolation && error.operation == operation
                && error.message@ == message && !error.retryable,
        },
{
    match &field {
        TextArrayField::NotArray => {
            let mut message = String::from_str("缺少数组字段 ");
            message.append(name);
            message.append("。");
            Err(RendererServiceError::new(RendererServiceErrorCode::ContractViolation, operation, message.as_str()))
        },
        TextArrayField::Items(items) => {
            let mut found: Vec<String> = Vec::new();
            let mut i: usize = 0;
            while i < items.len()
                invariant
                    field == TextArrayField::Items(*items),
                    0 <= i <= items@.len(),
                    found@.len() == i,
                    forall|k: int| 0 <= k < i ==> (#[trigger] items@[k] matches Some(text) && text@.len() > 0),
                    forall|k: int| 0 <= k < i ==> #[trigger] found@[k]@ == items@[k].unwrap()@,
                decreases items@.len() - i,
            {
                match &items[i] {
                    Some(text) if text.as_str().unicode_len() > 0 => {
                        found.push(text.clone());
                    },
                    _ => {
                        assert(!all_texts(items@)) by {
                            assert(!(items@[i as int] matches Some(text) && text@.len() > 0));
                        }
                        let mut message = String::from_str(name);
                        message.append(" 包含非字符串。");
                        return Err(
                            RendererServiceError::new(
                                RendererServiceErrorCode::ContractViolation,
                                operation,
                                message.as_str(),
                            ),
                        );
                    },
                }
                i = i + 1;
            }
            assert(texts(found@) =~= item_texts(items@));
            if !strings_distinct(found.as_slice()) {
                let mut message = String::from_str(name);
                message.append(" 包含重复值。");
                return Err(
                    RendererServiceError::new(
                        RendererServiceErrorCode::ContractViolation,
                        operation,
                        message.as_str(),
                    ),
                );
            }
            Ok(found)
        },
    }
}

/// A scene of the timeline's scene track, each field where it has its type.
#[derive(Debug, Clone, PartialEq, Eq)]
pub struct SnapshotTrackScene {
    pub scene_id: Option<String>,
    pub start_ms: Option<u64>,
    pub end_ms: Option<u64>,
}

/// A scene of the scene plan, each field where it has its type.
#[derive(Debug, Clone, PartialEq, Eq)]
pub struct SnapshotPlanScene {
    pub scene_id: Option<String>,
    pub title: Option<String>,
    pub narrative_role: Option<String>,
    pub cue_ids: TextArrayField,
    pub claim_ids: TextArrayField,
    pub evidence_refs: TextArrayField,
    pub provenance: SceneProvenanceInput,
}

/// The timeline's canvas: missing, present but not a canvas, or a canvas.
#[derive(Debug, Clone, PartialEq, Eq)]
pub enum SnapshotCanvasField {
    Missing,
    Invalid,
    Canvas(RenderCanvasData),
}

/// The timeline's safe area, each side where it is an integer.
#[derive(Debug, Clone, Copy, PartialEq, Eq, Structural)]
pub struct SnapshotSafeArea {
    pub x: Option<u64>,
    pub y: Option<u64>,
    pub width: Option<u64>,
    pub height: Option<u64>,
}

/// A self-contained HTML snapshot of one timeline scene with its traceability.
#[derive(Debug, Clone, PartialEq, Eq)]
pub struct SceneSnapshotData {
    pub snapshot_version: String,
    pub snapshot_id: String,
    pub project_id: String,
    pub timeline_artifact_id: String,
    pub timeline_content_hash: String,
    pub scene_id: String,
    pub start_ms: u64,
    pub end_ms: u64,
    pub canvas: RenderCanvasData,
    pub safe_area: SnapshotSafeArea,
    pub title: String,
    pub narrative_role: String,
    pub caption_cue_ids: Vec<String>,
    pub provenance: Vec<ProvenanceReferenceData>,
    pub claim_ids: Vec<String>,
    pub evidence_refs: Vec<String>,
    pub csp: String,
    pub resource_uris: Vec<String>,
    pub html: String,
    pub content_hash: String,
}

/// The first track scene with the identifier.
pub open spec fn find_track_scene(track: Seq<SnapshotTrackScene>, scene_id: Seq<char>) -> Option<SnapshotTrackScene>
    decreases track.len(),
{
    if track.len() == 0 {
        None
    } else if opt_view(track[0].scene_id) == Some(scene_id) {
        Some(track[0])
    } else {
        find_track_scene(track.drop_first(), scene_id)
    }
}

/// The first plan scene with the identifier.
pub open spec fn find_plan_scene(scenes: Seq<SnapshotPlanScene>, scene_id: Seq<char>) -> Option<SnapshotPlanScene>
    decreases scenes.len(),
{
    if scenes.len() == 0 {
        None
    } else if opt_view(scenes[0].scene_id) == Some(scene_id) {
        Some(scenes[0])
    } else {
        find_plan_scene(scenes.drop_first(), scene_id)
    }
}

/// A required string: present, not empty, at most 2048 bytes.
pub open spec fn snapshot_text_ok(value: Option<String>) -> bool {
    value matches Some(text) && 0 < encode_utf8(text@).len() <= 2048
}

/// The width and height a snapshot's safe area draws with: a missing side
/// defaults to 0 for an offset and to the canvas for an extent.
pub open spec fn safe_side(value: Option<u64>, default: u64) -> u64 {
    match value {
        Some(v) => v,
        None => default,
    }
}

/// Why a snapshot of the scene cannot be made from the timeline and scene
/// plan, with the error's code and message, before its HTML is checked.
pub open spec fn snapshot_refusal(
    track: Seq<SnapshotTrackScene>,
    scenes: Seq<SnapshotPlanScene>,
    scene_id: Seq<char>,
    canvas: SnapshotCanvasField,
    safe_area: Option<SnapshotSafeArea>,
) -> Option<(RendererServiceErrorCode, Seq<char>)> {
    let violation = RendererServiceErrorCode::ContractViolation;
    match find_track_scene(track, scene_id) {
        None => Some((RendererServiceErrorCode::SceneNotFound, "Timeline 中不存在目标场景。"@)),
        Some(entry) => match find_plan_scene(scenes, scene_id) {
            None => Some(
                (RendererServiceErrorCode::TraceabilityIncomplete, "Scene Plan 中缺少目标场景追溯。"@),
            ),
            Some(scene) => if entry.start_ms is None {
                Some((violation, "缺少整数宇段 startMs。"@))
            } else if entry.end_ms is None {
                Some((violation, "缺少整数宇段 endMs。"@))
            } else if !snapshot_text_ok(scene.title) {
                Some((violation, "缺少字符串字段 "@ + "title"@ + "。"@))
            } else if !snapshot_text_ok(scene.narrative_role) {
                Some((violation, "缺少字符串字段 "@ + "narrativeRole"@ + "。"@))
            } else if text_array_outcome(scene.cue_ids, "cueIds"@) is Err {
                Some((violation, text_array_outcome(scene.cue_ids, "cueIds"@)->Err_0))
            } else if text_array_outcome(scene.claim_ids, "claimIds"@) is Err {
                Some((violation, text_array_outcome(scene.claim_ids, "claimIds"@)->Err_0))
            } else if text_array_outcome(scene.evidence_refs, "evidenceRefs"@) is Err {
                Some((violation, text_array_outcome(scene.evidence_refs, "evidenceRefs"@)->Err_0))
            } else if scene_traceability_outcome(
                text_array_outcome(scene.claim_ids, "claimIds"@)->Ok_0,
                text_array_outcome(scene.evidence_refs, "evidenceRefs"@)->Ok_0,
                scene.provenance,
            ) is Err {
                Some(
                    scene_traceability_outcome(
                        text_array_outcome(scene.claim_ids, "claimIds"@)->Ok_0,
                        text_array_outcome(scene.evidence_refs, "evidenceRefs"@)->Ok_0,
                        scene.provenance,
                    )->Err_0,
                )
            } else if canvas is Missing {
                Some((violation, "Timeline 缺少 canvas。"@))
            } else if canvas is Invalid {
                Some((violation, "Timeline canvas 无效。"@))
            } else if safe_area is None {
                Some((violation, "Timeline 缺少 safeArea。"@))
            } else {
                None
            },
        },
    }
}

fn find_track_entry(track: &Vec<SnapshotTrackScene>, scene_id: &str) -> (found: Option<usize>)
    ensures
        match found {
            Some(i) => i < track@.len() && find_track_scene(track@, scene_id@) == Some(track@[i as int]),
            None => find_track_scene(track@, scene_id@) is None,
        },
{
    let mut i: usize = 0;
    assert(track@.skip(0) =~= track@);
    while i < track.len()
        invariant
            0 <= i <= track@.len(),
            find_track_scene(track@, scene_id@) == find_track_scene(track@.skip(i as int), scene_id@),
        decreases track@.len() - i,
    {
        assert(track@.skip(i as int).drop_first() =~= track@.skip(i + 1));
        let matches = match &track[i].scene_id {
            Some(id) => same_text(id.as_str(), scene_id),
            None => false,
        };
        if matches {
            return Some(i);
        }
        i = i + 1;
    }
    None
}

fn find_plan_entry(scenes: &Vec<SnapshotPlanScene>, scene_id: &str) -> (found: Option<usize>)
    ensures
        match found {
            Some(i) => i < scenes@.len() && find_plan_scene(scenes@, scene_id@) == Some(scenes@[i as int]),
            None => find_plan_scene(scenes@, scene_id@) is None,
        },
{
    let mut i: usize = 0;
    assert(scenes@.skip(0) =~= scenes@);
    while i < scenes.len()
        invariant
            0 <= i <= scenes@.len(),
            find_plan_scene(scenes@, scene_id@) == find_plan_scene(scenes@.skip(i as int), scene_id@),
        decreases scenes@.len() - i,
    {
        assert(scenes@.skip(i as int).drop_first() =~= scenes@.skip(i + 1));
        let matches = match &scenes[i].scene_id {
            Some(id) => same_text(id.as_str(), scene_id),
            None => false,
        };
        if matches {
            return Some(i);
        }
        i = i + 1;
    }
    None
}

fn snapshot_text(value: &Option<String>, name: &str, operation: RendererOperation) -> (result: Result<
    String,
    RendererServiceError,
>)
    ensures
        snapshot_text_ok(*value) ==> (result matches Ok(text) && Some(text@) == opt_view(*value)),
        !snapshot_text_ok(*value) ==> (result matches Err(error) && error.code
            == RendererServiceErrorCode::ContractViolation && error.operation == operation
            && error.message@ == "缺少字符串字段 "@ + name@ + "。"@ && !error.retryable),
{
    match value {
        Some(text) => {
            let length = text.as_str().as_bytes().len();
            if length > 0 && length <= 2048 {
                return Ok(text.clone());
            }
        },
        None => {},
    }
    let mut message = String::from_str("缺少字符串字段 ");
    message.append(name);
    message.append("。");
    Err(RendererServiceError::new(RendererServiceErrorCode::ContractViolation, operation, message.as_str()))
}

fn snapshot_error(code: RendererServiceErrorCode, operation: RendererOperation, message: &str) -> (error:
    RendererServiceError)
    ensures
        error.code == code && error.operation == operation && error.message@ == message@
            && !error.retryable,
{
    RendererServiceError::new(code, operation, message)
}

/// Builds the snapshot of one scene: found by its identifier in the
/// timeline's scene track and in the scene plan, its times, title, role, cues
/// and traceability read and checked, the timeline's canvas and safe area
/// required, and its HTML rendered and checked. The content hash is left
/// empty; [`seal_snapshot`] sets it from the snapshot's serialized bytes.
#[verifier::rlimit(80)]
#[verifier::spinoff_prover]
pub fn build_snapshot(
    project_id: &str,
    timeline_artifact_id: &str,
    timeline_content_hash: &str,
    track: Vec<SnapshotTrackScene>,
    scenes: Vec<SnapshotPlanScene>,
    scene_id: &str,
    canvas: SnapshotCanvasField,
    safe_area: Option<SnapshotSafeArea>,
    operation: RendererOperation,
) -> (result: Result<SceneSnapshotData, RendererServiceError>)
    ensures
        match snapshot_refusal(track@, scenes@, scene_id@, canvas, safe_area) {
            Some((code, message)) => result matches Err(error) && error.code == code
                && error.operation == operation && error.message@ == message && !error.retryable,
            None => {
                let entry = find_track_scene(track@, scene_id@).unwrap();
                let scene = find_plan_scene(scenes@, scene_id@).unwrap();
                let claims = text_array_outcome(scene.claim_ids, "claimIds"@)->Ok_0;
                let evidence = text_array_outcome(scene.evidence_refs, "evidenceRefs"@)->Ok_0;
                let area = safe_area.unwrap();
                let drawn = canvas->Canvas_0;
                let html = scene_html_spec(
                    snapshot_id_spec(project_id@, timeline_content_hash@, scene_id@),
                    scene_id@,
                    scene.title.unwrap()@,
                    scene.narrative_role.unwrap()@,
                    drawn.width,
                    drawn.height,
                    safe_side(area.x, 0),
                    safe_side(area.y, 0),
                    safe_side(area.width, drawn.width as u64),
                    safe_side(area.height, drawn.height as u64),
                    claims,
                    evidence,
                );
                if !snapshot_html_acceptable_spec(html) {
                    result matches Err(error) && error.code == RendererServiceErrorCode::SnapshotTooLarge
                        && error.operation == operation && error.message@
                        == "Scene Snapshot 超出上限或包含禁止资源/脚本。"@
                } else {
                    result matches Ok(snapshot) && {
                        &&& snapshot.snapshot_version@ == "1.0.0"@
                        &&& snapshot.snapshot_id@ == snapshot_id_spec(
                            project_id@,
                            timeline_content_hash@,
                            scene_id@,
                        )
                        &&& snapshot.project_id@ == project_id@
                        &&& snapshot.timeline_artifact_id@ == timeline_artifact_id@
                        &&& snapshot.timeline_content_hash@ == timeline_content_hash@
                        &&& snapshot.scene_id@ == scene_id@
                        &&& Some(snapshot.start_ms) == entry.start_ms
                        &&& Some(snapshot.end_ms) == entry.end_ms
                        &&& snapshot.canvas == drawn
                        &&& snapshot.safe_area == area
                        &&& Some(snapshot.title@) == opt_view(scene.title)
                        &&& Some(snapshot.narrative_role@) == opt_view(scene.narrative_role)
                        &&& texts(snapshot.caption_cue_ids@) == text_array_outcome(
                            scene.cue_ids,
                            "cueIds"@,
                        )->Ok_0
                        &&& references_view(snapshot.provenance@) == scene_traceability_outcome(
                            claims,
                            evidence,
                            scene.provenance,
                        )->Ok_0
                        &&& texts(snapshot.claim_ids@) == claims
                        &&& texts(snapshot.evidence_refs@) == evidence
                        &&& snapshot.csp@ == SNAPSHOT_CSP@
                        &&& snapshot.resource_uris@.len() == 0
                        &&& snapshot.html@ == html
                        &&& snapshot.content_hash@ == Seq::<char>::empty()
                    }
                }
            },
        },
{
    let track_index = match find_track_entry(&track, scene_id) {
        Some(index) => index,
        None => {
            return Err(
                snapshot_error(
                    RendererServiceErrorCode::SceneNotFound,
                    operation,
                    "Timeline 中不存在目标场景。",
                ),
            )
        },
    };
    let scene_index = match find_plan_entry(&scenes, scene_id) {
        Some(index) => index,
        None => {
            return Err(
                snapshot_error(
                    RendererServiceErrorCode::TraceabilityIncomplete,
                    operation,
                    "Scene Plan 中缺少目标场景追溯。",
                ),
            )
        },
    };
    let entry = &track[track_index];
    let start_ms = match entry.start_ms {
        Some(value) => value,
        None => {
            return Err(
                snapshot_error(
                    RendererServiceErrorCode::ContractViolation,
                    operation,
                    "缺少整数宇段 startMs。",
                ),
            )
        },
    };
    let end_ms = match entry.end_ms {
        Some(value) => value,
        None => {
            return Err(
                snapshot_error(
                    RendererServiceErrorCode::ContractViolation,
                    operation,
                    "缺少整数宇段 endMs。",
                ),
            )
        },
    };
    let ghost plan_scene = scenes@[scene_index as int];
    let mut scenes = scenes;
    let scene = scenes.swap_remove(scene_index);
    assert(scene == plan_scene);
    proof {
        reveal_strlit("title");
        reveal_strlit("narrativeRole");
        reveal_strlit("cueIds");
        reveal_strlit("claimIds");
        reveal_strlit("evidenceRefs");
    }
    let title = snapshot_text(&scene.title, "title", operation)?;
    let narrative_role = snapshot_text(&scene.narrative_role, "narrativeRole", operation)?;
    let SnapshotPlanScene { cue_ids, claim_ids, evidence_refs, provenance, .. } = scene;
    let caption_cue_ids = text_array(cue_ids, "cueIds", operation)?;
    let claim_ids = text_array(claim_ids, "claimIds", operation)?;
    let evidence_refs = text_array(evidence_refs, "evidenceRefs", operation)?;
    let traceability = scene_traceability(claim_ids, evidence_refs, &provenance, operation)?;
    let drawn = match canvas {
        SnapshotCanvasField::Missing => {
            return Err(
                snapshot_error(
                    RendererServiceErrorCode::ContractViolation,
                    operation,
                    "Timeline 缺少 canvas。",
                ),
            )
        },
        SnapshotCanvasField::Invalid => {
            return Err(
                snapshot_error(
                    RendererServiceErrorCode::ContractViolation,
                    operation,
                    "Timeline canvas 无效。",
                ),
            )
        },
        SnapshotCanvasField::Canvas(value) => value,
    };
    let area = match safe_area {
        Some(value) => value,
        None => {
            return Err(
                snapshot_error(
                    RendererServiceErrorCode::ContractViolation,
                    operation,
                    "Timeline 缺少 safeArea。",
                ),
            )
        },
    };
    let snapshot_id = scene_snapshot_id(project_id, timeline_content_hash, scene_id);
    let html = scene_html(
        snapshot_id.as_str(),
        scene_id,
        title.as_str(),
        narrative_role.as_str(),
        drawn.width,
        drawn.height,
        area.x,
        area.y,
        area.width,
        area.height,
        traceability.claim_ids.as_slice(),
        traceability.evidence_refs.as_slice(),
    );
    validate_snapshot_html(html.as_str(), operation)?;
    Ok(
        SceneSnapshotData {
            snapshot_version: "1.0.0".to_owned(),
            snapshot_id,
            project_id: project_id.to_owned(),
            timeline_artifact_id: timeline_artifact_id.to_owned(),
            timeline_content_hash: timeline_content_hash.to_owned(),
            scene_id: scene_id.to_owned(),
            start_ms,
            end_ms,
            canvas: drawn,
            safe_area: area,
            title,
            narrative_role,
            caption_cue_ids,
            provenance: traceability.provenance,
            claim_ids: traceability.claim_ids,
            evidence_refs: traceability.evidence_refs,
            csp: SNAPSHOT_CSP.to_owned(),
            resource_uris: Vec::new(),
            html,
            content_hash: String::new(),
        },
    )
}

/// The snapshot with its content hash set to the hash of `serialized`, its
/// JSON serialization without a content hash.
pub fn seal_snapshot(snapshot: SceneSnapshotData, serialized: &[u8]) -> (sealed: SceneSnapshotData)
    ensures
        sealed.content_hash@ == crate::content_hash::content_hash_of(serialized@),
        sealed == (SceneSnapshotData { content_hash: sealed.content_hash, ..snapshot }),
{
    let mut sealed = snapshot;
    sealed.content_hash = crate::digest::content_digest(serialized);
    sealed
}

} // verus!
