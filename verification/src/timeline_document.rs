use vstd::prelude::*;

use crate::identifiers::{
    artifact_ref_is_valid, artifact_ref_spec, portable_id, portable_id_spec, run_id_is_valid,
    run_id_spec, texts,
};
use crate::media_types::{
    FrozenArtifactInputData, TimelineCanvasData, TimelineEditData, TimelineSafeAreaData,
};
use crate::ordered_set::{strictly_ascending, strings_strictly_ascending};
use crate::storage_error::opt_view;
use crate::text::{bounded_text, bounded_text_spec, same_text};
use crate::timeline::{
    boundary_move_refusal, canvas_valid, find_scene, first_scene_with_id, frozen_input_is_valid,
    lemma_boundary_move_keeps_track_valid, move_scene_boundary, track_with_boundary, frozen_input_valid, input_of_stage,
    required_input_for_stage, safe_area_valid, scene_track_refusal, scene_track_valid,
    stage_input, stage_input_refusal, validate_canvas,
    validate_safe_area, validate_scene_track, TimelineDomainError, TimelineDomainErrorCode,
    TimelineScene, MAX_AUDIO_DURATION_MS, MAX_TIMELINE_CUES, MAX_TIMELINE_EDITS,
};

verus! {

/// The audio track of a timeline.
#[derive(Debug, Clone, PartialEq, Eq)]
pub struct TimelineAudioTrack {
    pub audio_artifact_id: String,
    pub start_ms: u64,
    pub end_ms: u64,
}

/// The caption track of a timeline.
#[derive(Debug, Clone, PartialEq, Eq)]
pub struct TimelineCaptionTrack {
    pub captions_artifact_id: String,
    pub cue_ids: Vec<String>,
    pub visible: bool,
}

/// What changed in a timeline revision.
#[derive(Debug, Clone, PartialEq, Eq)]
pub struct TimelineChangeSummary {
    pub summary: String,
    pub changed_scene_ids: Vec<String>,
}

/// A frozen input as a timeline records it, with the project it belongs to.
#[derive(Debug, Clone, PartialEq, Eq)]
pub struct TimelineInputRef {
    pub project_id: String,
    pub input: FrozenArtifactInputData,
}

/// A timeline document, field by field.
#[derive(Debug, Clone, PartialEq, Eq)]
pub struct TimelineDocument {
    pub schema_version: String,
    pub document_type: String,
    pub timeline_id: String,
    pub project_id: String,
    pub run_id: String,
    pub duration_ms: u64,
    pub canvas: TimelineCanvasData,
    pub audio_track: TimelineAudioTrack,
    pub scene_track: Vec<TimelineScene>,
    pub caption_track: TimelineCaptionTrack,
    pub safe_area: TimelineSafeAreaData,
    pub input_refs: Vec<TimelineInputRef>,
    /// The configuration snapshot as JSON text.
    pub config_snapshot: String,
    pub change_summary: TimelineChangeSummary,
    pub created_at: String,
    pub supersedes_artifact_id: Option<String>,
}

/// The scene `id` is on the track.
pub open spec fn has_scene(scenes: Seq<TimelineScene>, id: Seq<char>) -> bool {
    exists|j: int| 0 <= j < scenes.len() && scenes[j].scene_id@ == id
}

/// A change summary of 1 to 2048 characters without control characters,
/// whose changed scene identifiers are strictly ascending and all on the track.
pub open spec fn change_summary_valid(
    summary: Seq<char>,
    changed: Seq<Seq<char>>,
    scenes: Seq<TimelineScene>,
) -> bool {
    &&& bounded_text_spec(summary, 1, 2048)
    &&& strictly_ascending(changed)
    &&& forall|k: int| 0 <= k < changed.len() ==> has_scene(scenes, #[trigger] changed[k])
}

/// Checks a timeline's change summary against its scene track.
pub fn validate_changed_scene_ids(
    summary: &str,
    changed: &[String],
    scenes: &[TimelineScene],
) -> (result: Result<(), TimelineDomainError>)
    ensures
        result is Ok <==> change_summary_valid(summary@, texts(changed@), scenes@),
        result matches Err(error) ==> error.code == TimelineDomainErrorCode::InvalidTimeline
            && error.message@
            == "changeSummary 必须有界，changedSceneIds 必须稳定去重并引用现有 Scene。"@,
{
    let mut all_present = true;
    let mut k: usize = 0;
    while k < changed.len()
        invariant
            0 <= k <= changed@.len(),
            all_present == forall|q: int| 0 <= q < k ==> has_scene(scenes@, #[trigger] texts(changed@)[q]),
        decreases changed@.len() - k,
    {
        let present = match find_scene(scenes, changed[k].as_str()) {
            Some(_) => true,
            None => false,
        };
        proof {
            if !present {
                assert(!has_scene(scenes@, texts(changed@)[k as int])) by {
                    if has_scene(scenes@, texts(changed@)[k as int]) {
                        let j = choose|j: int|
                            0 <= j < scenes@.len() && scenes@[j].scene_id@ == texts(changed@)[k as int];
                        lemma_first_occurrence(scenes@, changed@[k as int]@, j);
                    }
                }
            }
        }
        all_present = all_present && present;
        k = k + 1;
    }
    if !bounded_text(summary, 1, 2048) || !strings_strictly_ascending(changed) || !all_present {
        return Err(
            TimelineDomainError::new(
                TimelineDomainErrorCode::InvalidTimeline,
                "changeSummary 必须有界，changedSceneIds 必须稳定去重并引用现有 Scene。",
            ),
        );
    }
    Ok(())
}

/// A scene with identifier `id` at `j` means a first one exists.
proof fn lemma_first_occurrence(scenes: Seq<TimelineScene>, id: Seq<char>, j: int)
    requires
        0 <= j < scenes.len(),
        scenes[j].scene_id@ == id,
    ensures
        exists|m: int| crate::timeline::first_scene_with_id(scenes, id, m),
    decreases j,
{
    if exists|p: int| 0 <= p < j && scenes[p].scene_id@ == id {
        let p = choose|p: int| 0 <= p < j && scenes[p].scene_id@ == id;
        lemma_first_occurrence(scenes, id, p);
    } else {
        assert(crate::timeline::first_scene_with_id(scenes, id, j));
    }
}


/// A stage that a timeline consumes: audio, captions or the scene plan.
pub open spec fn timeline_stage(stage_id: Seq<char>) -> bool {
    stage_id == "audio"@ || stage_id == "captions"@ || stage_id == "scene_plan"@
}

/// The frozen inputs that the references record.
pub open spec fn ref_inputs(refs: Seq<TimelineInputRef>) -> Seq<FrozenArtifactInputData> {
    refs.map_values(|r: TimelineInputRef| r.input)
}

/// Why reference `k` is refused given the earlier ones, if it is.
pub open spec fn input_ref_refusal(refs: Seq<TimelineInputRef>, project_id: Seq<char>, k: int) -> Option<
    Seq<char>,
> {
    if refs[k].project_id@ != project_id {
        Some("Timeline inputRefs 必须全部属于文档项目。"@)
    } else if !frozen_input_valid(refs[k].input, refs[k].input.stage_id@) {
        Some("Timeline inputRef 身份或追溯字段无效。"@)
    } else if !timeline_stage(refs[k].input.stage_id@) || exists|j: int|
        0 <= j < k && refs[j].input.artifact_id@ == refs[k].input.artifact_id@ {
        Some("Timeline inputRefs 阶段必须为 Audio/Captions/ScenePlan 且 Artifact 唯一。"@)
    } else {
        None
    }
}

/// The refusal of the first refused reference from `k` on.
pub open spec fn first_input_ref_refusal(refs: Seq<TimelineInputRef>, project_id: Seq<char>, k: int) -> Option<
    Seq<char>,
>
    decreases refs.len() - k,
{
    if k < 0 || k >= refs.len() {
        None
    } else if input_ref_refusal(refs, project_id, k) is Some {
        input_ref_refusal(refs, project_id, k)
    } else {
        first_input_ref_refusal(refs, project_id, k + 1)
    }
}

/// Why a timeline's input references are refused, if they are: there must be
/// exactly three, of the project, valid, of distinct artifacts, one per stage.
pub open spec fn input_refs_refusal(refs: Seq<TimelineInputRef>, project_id: Seq<char>) -> Option<
    Seq<char>,
> {
    if refs.len() != 3 {
        Some("Timeline 必须精确包含三个冻结 inputRefs。"@)
    } else if first_input_ref_refusal(refs, project_id, 0) is Some {
        first_input_ref_refusal(refs, project_id, 0)
    } else if stage_input_refusal(ref_inputs(refs), "audio"@) is Some {
        stage_input_refusal(ref_inputs(refs), "audio"@)
    } else if stage_input_refusal(ref_inputs(refs), "captions"@) is Some {
        stage_input_refusal(ref_inputs(refs), "captions"@)
    } else {
        stage_input_refusal(ref_inputs(refs), "scene_plan"@)
    }
}

/// The single input of the stage `stage_id` among the references; refused
/// when there is none or more than one.
pub fn required_ref_for_stage<'a>(refs: &'a [TimelineInputRef], stage_id: &str) -> (result: Result<
    &'a FrozenArtifactInputData,
    TimelineDomainError,
>)
    ensures
        result is Ok <==> stage_input_refusal(ref_inputs(refs@), stage_id@) is None,
        result matches Ok(input) ==> *input == stage_input(ref_inputs(refs@), stage_id@),
        result matches Err(error) ==> error.code == TimelineDomainErrorCode::InvalidTimeline && Some(
            error.message@,
        ) == stage_input_refusal(ref_inputs(refs@), stage_id@),
{
    let ghost inputs = ref_inputs(refs@);
    let mut found: Option<usize> = None;
    let mut i: usize = 0;
    while i < refs.len()
        invariant
            inputs == ref_inputs(refs@),
            0 <= i <= refs@.len(),
            found matches Some(f) ==> f < i && input_of_stage(inputs, f as int, stage_id@),
            forall|j: int| 0 <= j < i && input_of_stage(inputs, j, stage_id@) ==> found == Some(
                j as usize,
            ),
        decreases refs@.len() - i,
    {
        if same_text(refs[i].input.stage_id.as_str(), stage_id) {
            if let Some(first) = found {
                let mut message = String::from_str("Timeline 包含重复 ");
                message.append(stage_id);
                message.append(" inputRef。");
                assert(input_of_stage(inputs, first as int, stage_id@));
                assert(input_of_stage(inputs, i as int, stage_id@));
                return Err(TimelineDomainError { code: TimelineDomainErrorCode::InvalidTimeline, message });
            }
            found = Some(i);
        }
        i = i + 1;
    }
    match found {
        Some(f) => {
            assert(input_of_stage(inputs, f as int, stage_id@));
            Ok(&refs[f].input)
        },
        None => {
            let mut message = String::from_str("Timeline 缺少 ");
            message.append(stage_id);
            message.append(" inputRef。");
            Err(TimelineDomainError { code: TimelineDomainErrorCode::InvalidTimeline, message })
        },
    }
}

/// Checks a timeline's input references against its project.
pub fn validated_timeline_input_refs(refs: &[TimelineInputRef], project_id: &str) -> (result: Result<
    (),
    TimelineDomainError,
>)
    ensures
        result is Ok <==> input_refs_refusal(refs@, project_id@) is None,
        result matches Err(error) ==> error.code == TimelineDomainErrorCode::InvalidTimeline && Some(
            error.message@,
        ) == input_refs_refusal(refs@, project_id@),
{
    proof {
        reveal_strlit("audio");
        reveal_strlit("captions");
        reveal_strlit("scene_plan");
    }
    if refs.len() != 3 {
        return Err(
            TimelineDomainError::new(
                TimelineDomainErrorCode::InvalidTimeline,
                "Timeline 必须精确包含三个冻结 inputRefs。",
            ),
        );
    }
    let mut k: usize = 0;
    while k < refs.len()
        invariant
            refs@.len() == 3,
            0 <= k <= 3,
            first_input_ref_refusal(refs@, project_id@, 0) == first_input_ref_refusal(
                refs@,
                project_id@,
                k as int,
            ),
        decreases 3 - k,
    {
        let r = &refs[k];
        if !same_text(r.project_id.as_str(), project_id) {
            return Err(
                TimelineDomainError::new(
                    TimelineDomainErrorCode::InvalidTimeline,
                    "Timeline inputRefs 必须全部属于文档项目。",
                ),
            );
        }
        if !frozen_input_is_valid(&r.input, r.input.stage_id.as_str()) {
            return Err(
                TimelineDomainError::new(
                    TimelineDomainErrorCode::InvalidTimeline,
                    "Timeline inputRef 身份或追溯字段无效。",
                ),
            );
        }
        let stage = r.input.stage_id.as_str();
        let allowed = same_text(stage, "audio") || same_text(stage, "captions") || same_text(
            stage,
            "scene_plan",
        );
        let mut repeated = false;
        let mut j: usize = 0;
        while j < k
            invariant
                refs@.len() == 3,
                0 <= j <= k < 3,
                repeated == exists|q: int|
                    0 <= q < j && refs@[q].input.artifact_id@ == refs@[k as int].input.artifact_id@,
            decreases k - j,
        {
            if same_text(refs[j].input.artifact_id.as_str(), refs[k].input.artifact_id.as_str()) {
                repeated = true;
            }
            j = j + 1;
        }
        if !allowed || repeated {
            return Err(
                TimelineDomainError::new(
                    TimelineDomainErrorCode::InvalidTimeline,
                    "Timeline inputRefs 阶段必须为 Audio/Captions/ScenePlan 且 Artifact 唯一。",
                ),
            );
        }
        k = k + 1;
    }
    match required_ref_for_stage(refs, "audio") {
        Ok(_) => {},
        Err(error) => {
            return Err(error);
        },
    }
    match required_ref_for_stage(refs, "captions") {
        Ok(_) => {},
        Err(error) => {
            return Err(error);
        },
    }
    match required_ref_for_stage(refs, "scene_plan") {
        Ok(_) => {},
        Err(error) => {
            return Err(error);
        },
    }
    Ok(())
}


/// JSON text that holds an object.
pub open spec fn json_object_text(text: Seq<char>) -> bool {
    text.len() > 0 && text[0] == '{'
}

/// Why a timeline's caption cue list is refused, if it is.
pub open spec fn cue_ids_refusal(cue_ids: Seq<Seq<char>>) -> Option<Seq<char>> {
    if !(0 < cue_ids.len() <= MAX_TIMELINE_CUES) {
        Some("captionTrack cueIds 缺失、为空或超过上限。"@)
    } else if exists|k: int|
        0 <= k < cue_ids.len() && (!portable_id_spec(cue_ids[k], 160) || exists|j: int|
            0 <= j < k && cue_ids[j] == cue_ids[k]) {
        Some("captionTrack cueIds 必须有界、可移植、唯一且保持顺序。"@)
    } else {
        None
    }
}

/// Why a timeline document is refused, if it is: the code and the message.
pub open spec fn timeline_refusal(doc: TimelineDocument) -> Option<(TimelineDomainErrorCode, Seq<char>)> {
    let invalid = TimelineDomainErrorCode::InvalidTimeline;
    let inputs = ref_inputs(doc.input_refs@);
    if doc.document_type@ != "timeline"@ {
        Some((invalid, "文档不是 TimelineDocument。"@))
    } else if !portable_id_spec(doc.project_id@, 160) || !run_id_spec(doc.run_id@)
        || !portable_id_spec(doc.timeline_id@, 160) {
        Some((invalid, "Timeline 项目、运行或文档身份无效。"@))
    } else if !bounded_text_spec(doc.created_at@, 20, 40) || !json_object_text(doc.config_snapshot@) {
        Some((invalid, "Timeline 时间戳或配置快照无效。"@))
    } else if !(0 < doc.duration_ms <= MAX_AUDIO_DURATION_MS) {
        Some((invalid, "durationMs 缺失或无效。"@))
    } else if !canvas_valid(doc.canvas) {
        Some(
            (TimelineDomainErrorCode::InvalidRequest, "Timeline canvas 尺寸或 frameRate rational 无效。"@),
        )
    } else if !safe_area_valid(doc.safe_area, doc.canvas) {
        Some(
            (
                TimelineDomainErrorCode::InvalidRequest,
                "Timeline safeArea 必须无溢出地位于 canvas 范围内。"@,
            ),
        )
    } else if input_refs_refusal(doc.input_refs@, doc.project_id@) is Some {
        Some((invalid, input_refs_refusal(doc.input_refs@, doc.project_id@).unwrap()))
    } else if doc.audio_track.audio_artifact_id@ != stage_input(inputs, "audio"@).artifact_id@
        || doc.audio_track.start_ms != 0 || doc.audio_track.end_ms != doc.duration_ms {
        Some((invalid, "audioTrack 必须精确引用批准 Audio Artifact 并覆盖完整时长。"@))
    } else if doc.caption_track.captions_artifact_id@ != stage_input(inputs, "captions"@).artifact_id@ {
        Some((invalid, "captionTrack 未精确引用批准 Captions Artifact。"@))
    } else if cue_ids_refusal(texts(doc.caption_track.cue_ids@)) is Some {
        Some((invalid, cue_ids_refusal(texts(doc.caption_track.cue_ids@)).unwrap()))
    } else if scene_track_refusal(doc.scene_track@, doc.duration_ms) is Some {
        Some((invalid, scene_track_refusal(doc.scene_track@, doc.duration_ms).unwrap()))
    } else if !change_summary_valid(
        doc.change_summary.summary@,
        texts(doc.change_summary.changed_scene_ids@),
        doc.scene_track@,
    ) {
        Some(
            (
                invalid,
                "changeSummary 必须有界，changedSceneIds 必须稳定去重并引用现有 Scene。"@,
            ),
        )
    } else {
        None
    }
}

/// Checks a caption cue list: 1 to 10000 distinct portable identifiers.
fn validate_cue_ids(cue_ids: &[String]) -> (result: Result<(), TimelineDomainError>)
    ensures
        result is Ok <==> cue_ids_refusal(texts(cue_ids@)) is None,
        result matches Err(error) ==> error.code == TimelineDomainErrorCode::InvalidTimeline && Some(
            error.message@,
        ) == cue_ids_refusal(texts(cue_ids@)),
{
    let ghost t = texts(cue_ids@);
    if cue_ids.len() == 0 || cue_ids.len() > MAX_TIMELINE_CUES {
        return Err(
            TimelineDomainError::new(
                TimelineDomainErrorCode::InvalidTimeline,
                "captionTrack cueIds 缺失、为空或超过上限。",
            ),
        );
    }
    let mut k: usize = 0;
    while k < cue_ids.len()
        invariant
            t == texts(cue_ids@),
            0 < cue_ids@.len() <= MAX_TIMELINE_CUES,
            0 <= k <= cue_ids@.len(),
            forall|q: int|
                0 <= q < k ==> portable_id_spec(#[trigger] t[q], 160) && forall|j: int|
                    0 <= j < q ==> t[j] != t[q],
        decreases cue_ids@.len() - k,
    {
        let mut repeated = false;
        let mut j: usize = 0;
        while j < k
            invariant
                t == texts(cue_ids@),
                0 <= j <= k < cue_ids@.len(),
                repeated == exists|q: int| 0 <= q < j && t[q] == t[k as int],
            decreases k - j,
        {
            assert(t[j as int] == cue_ids@[j as int]@);
            assert(t[k as int] == cue_ids@[k as int]@);
            if same_text(cue_ids[j].as_str(), cue_ids[k].as_str()) {
                repeated = true;
            }
            j = j + 1;
        }
        assert(t[k as int] == cue_ids@[k as int]@);
        if !portable_id(cue_ids[k].as_str()) || repeated {
            assert(!portable_id_spec(t[k as int], 160) || exists|j: int| 0 <= j < k && t[j] == t[k as int]);
            return Err(
                TimelineDomainError::new(
                    TimelineDomainErrorCode::InvalidTimeline,
                    "captionTrack cueIds 必须有界、可移植、唯一且保持顺序。",
                ),
            );
        }
        k = k + 1;
    }
    Ok(())
}

/// Checks the meaning of a timeline document: identities, timestamps,
/// duration, canvas and safe area, the three frozen inputs and the tracks
/// that must reference them, the caption cues, the scene track and the
/// change summary.
pub fn validate_timeline_semantics(doc: &TimelineDocument) -> (result: Result<(), TimelineDomainError>)
    ensures
        result is Ok <==> timeline_refusal(*doc) is None,
        result matches Err(error) ==> Some((error.code, error.message@)) == timeline_refusal(*doc),
{
    proof {
        reveal_strlit("audio");
        reveal_strlit("captions");
        reveal_strlit("timeline");
    }
    if !same_text(doc.document_type.as_str(), "timeline") {
        return Err(
            TimelineDomainError::new(
                TimelineDomainErrorCode::InvalidTimeline,
                "文档不是 TimelineDocument。",
            ),
        );
    }
    if !portable_id(doc.project_id.as_str()) || !run_id_is_valid(doc.run_id.as_str())
        || !portable_id(doc.timeline_id.as_str()) {
        return Err(
            TimelineDomainError::new(
                TimelineDomainErrorCode::InvalidTimeline,
                "Timeline 项目、运行或文档身份无效。",
            ),
        );
    }
    let config_chars = crate::text::chars_of(doc.config_snapshot.as_str());
    let config_is_object = config_chars.len() > 0 && config_chars[0] == '{';
    if !bounded_text(doc.created_at.as_str(), 20, 40) || !config_is_object {
        return Err(
            TimelineDomainError::new(
                TimelineDomainErrorCode::InvalidTimeline,
                "Timeline 时间戳或配置快照无效。",
            ),
        );
    }
    if doc.duration_ms == 0 || doc.duration_ms > MAX_AUDIO_DURATION_MS {
        return Err(
            TimelineDomainError::new(
                TimelineDomainErrorCode::InvalidTimeline,
                "durationMs 缺失或无效。",
            ),
        );
    }
    validate_canvas(doc.canvas)?;
    validate_safe_area(doc.safe_area, doc.canvas)?;
    validated_timeline_input_refs(doc.input_refs.as_slice(), doc.project_id.as_str())?;
    let audio_input = required_ref_for_stage(doc.input_refs.as_slice(), "audio")?;
    let captions_input = required_ref_for_stage(doc.input_refs.as_slice(), "captions")?;
    required_ref_for_stage(doc.input_refs.as_slice(), "scene_plan")?;
    if !same_text(doc.audio_track.audio_artifact_id.as_str(), audio_input.artifact_id.as_str())
        || doc.audio_track.start_ms != 0 || doc.audio_track.end_ms != doc.duration_ms {
        return Err(
            TimelineDomainError::new(
                TimelineDomainErrorCode::InvalidTimeline,
                "audioTrack 必须精确引用批准 Audio Artifact 并覆盖完整时长。",
            ),
        );
    }
    if !same_text(
        doc.caption_track.captions_artifact_id.as_str(),
        captions_input.artifact_id.as_str(),
    ) {
        return Err(
            TimelineDomainError::new(
                TimelineDomainErrorCode::InvalidTimeline,
                "captionTrack 未精确引用批准 Captions Artifact。",
            ),
        );
    }
    validate_cue_ids(doc.caption_track.cue_ids.as_slice())?;
    validate_scene_track(doc.scene_track.as_slice(), doc.duration_ms)?;
    validate_changed_scene_ids(
        doc.change_summary.summary.as_str(),
        doc.change_summary.changed_scene_ids.as_slice(),
        doc.scene_track.as_slice(),
    )?;
    Ok(())
}


/// A request to apply edits to a timeline.
#[derive(Debug, Clone, PartialEq, Eq)]
pub struct ApplyTimelineEditsOptions {
    pub base_timeline_document: TimelineDocument,
    pub edits: Vec<TimelineEditData>,
    pub change_summary: String,
    pub new_run_id: String,
    pub new_timeline_id: String,
    pub created_at: String,
    pub base_artifact_id: String,
}

/// Why an edit request is refused before any edit is tried, if it is.
pub open spec fn apply_options_refusal(options: ApplyTimelineEditsOptions) -> Option<Seq<char>> {
    if !(0 < options.edits@.len() <= MAX_TIMELINE_EDITS) || !bounded_text_spec(
        options.change_summary@,
        1,
        2048,
    ) || !run_id_spec(options.new_run_id@) || !portable_id_spec(options.new_timeline_id@, 160)
        || !bounded_text_spec(options.created_at@, 20, 40) || !artifact_ref_spec(
        options.base_artifact_id@,
    ) {
        Some("Timeline 编辑请求无效或超过资源上限。"@)
    } else if options.base_timeline_document.run_id@ == options.new_run_id@
        || options.base_timeline_document.timeline_id@ == options.new_timeline_id@ {
        Some("编辑后的 Timeline 必须使用新的 runId 与 timelineId。"@)
    } else {
        None
    }
}

/// Checks an edit request: 1 to 1000 edits, a bounded summary, valid new
/// identities that differ from the base ones, and a valid base artifact.
pub fn validate_apply_options(options: &ApplyTimelineEditsOptions) -> (result: Result<
    (),
    TimelineDomainError,
>)
    ensures
        result is Ok <==> apply_options_refusal(*options) is None,
        result matches Err(error) ==> error.code == TimelineDomainErrorCode::InvalidRequest && Some(
            error.message@,
        ) == apply_options_refusal(*options),
{
    if options.edits.len() == 0 || options.edits.len() > MAX_TIMELINE_EDITS || !bounded_text(
        options.change_summary.as_str(),
        1,
        2048,
    ) || !run_id_is_valid(options.new_run_id.as_str()) || !portable_id(
        options.new_timeline_id.as_str(),
    ) || !bounded_text(options.created_at.as_str(), 20, 40) || !artifact_ref_is_valid(
        options.base_artifact_id.as_str(),
    ) {
        return Err(
            TimelineDomainError::new(
                TimelineDomainErrorCode::InvalidRequest,
                "Timeline 编辑请求无效或超过资源上限。",
            ),
        );
    }
    if same_text(options.base_timeline_document.run_id.as_str(), options.new_run_id.as_str())
        || same_text(
        options.base_timeline_document.timeline_id.as_str(),
        options.new_timeline_id.as_str(),
    ) {
        return Err(
            TimelineDomainError::new(
                TimelineDomainErrorCode::InvalidRequest,
                "编辑后的 Timeline 必须使用新的 runId 与 timelineId。",
            ),
        );
    }
    Ok(())
}

/// The result of one edit on the editable part of a timeline with `canvas`.
pub open spec fn edit_step(
    state: (Seq<TimelineScene>, TimelineSafeAreaData, bool),
    canvas: TimelineCanvasData,
    edit: TimelineEditData,
) -> Result<(Seq<TimelineScene>, TimelineSafeAreaData, bool), (TimelineDomainErrorCode, Seq<char>)> {
    match edit {
        TimelineEditData::MoveSceneBoundary { left_scene_id, right_scene_id, boundary_ms } => {
            match boundary_move_refusal(state.0, left_scene_id@, right_scene_id@, boundary_ms) {
                Some(message) => Err((TimelineDomainErrorCode::InvalidEdit, message)),
                None => Ok(
                    (
                        track_with_boundary(
                            state.0,
                            choose|i: int| first_scene_with_id(state.0, left_scene_id@, i),
                            boundary_ms,
                        ),
                        state.1,
                        state.2,
                    ),
                ),
            }
        },
        TimelineEditData::SetSafeArea { safe_area } => {
            if safe_area_valid(safe_area, canvas) {
                Ok((state.0, safe_area, state.2))
            } else {
                Err(
                    (
                        TimelineDomainErrorCode::InvalidRequest,
                        "Timeline safeArea 必须无溢出地位于 canvas 范围内。"@,
                    ),
                )
            }
        },
        TimelineEditData::SetCaptionVisibility { visible } => Ok((state.0, state.1, visible)),
    }
}

/// The result of applying `edits` in order; the first refused edit refuses
/// the whole sequence.
pub open spec fn edits_outcome(
    state: (Seq<TimelineScene>, TimelineSafeAreaData, bool),
    canvas: TimelineCanvasData,
    edits: Seq<TimelineEditData>,
) -> Result<(Seq<TimelineScene>, TimelineSafeAreaData, bool), (TimelineDomainErrorCode, Seq<char>)>
    decreases edits.len(),
{
    if edits.len() == 0 {
        Ok(state)
    } else {
        match edits_outcome(state, canvas, edits.drop_last()) {
            Err(refusal) => Err(refusal),
            Ok(before) => edit_step(before, canvas, edits.last()),
        }
    }
}

/// The scenes named by the boundary moves among `edits`.
pub open spec fn boundary_scene_ids(edits: Seq<TimelineEditData>) -> Set<Seq<char>>
    decreases edits.len(),
{
    if edits.len() == 0 {
        Set::empty()
    } else {
        boundary_scene_ids(edits.drop_last()) + match edits.last() {
            TimelineEditData::MoveSceneBoundary { left_scene_id, right_scene_id, .. } => set![
                left_scene_id@,
                right_scene_id@,
            ],
            _ => Set::empty(),
        }
    }
}

/// Applied to a valid track and safe area, edits that succeed keep the track
/// valid with the same scene identifiers in the same order, keep the safe
/// area within the canvas, and every scene they name is on the track.
pub proof fn lemma_edits_keep_track_valid(
    state: (Seq<TimelineScene>, TimelineSafeAreaData, bool),
    canvas: TimelineCanvasData,
    edits: Seq<TimelineEditData>,
    duration_ms: u64,
)
    requires
        scene_track_valid(state.0, duration_ms),
        safe_area_valid(state.1, canvas),
    ensures
        edits_outcome(state, canvas, edits) matches Ok(after) ==> {
            &&& scene_track_valid(after.0, duration_ms)
            &&& after.0.len() == state.0.len()
            &&& forall|j: int| 0 <= j < state.0.len() ==> #[trigger] after.0[j].scene_id@ == state.0[j].scene_id@
            &&& safe_area_valid(after.1, canvas)
            &&& forall|id: Seq<char>| #[trigger] boundary_scene_ids(edits).contains(id) ==> has_scene(after.0, id)
        },
    decreases edits.len(),
{
    if edits.len() > 0 {
        lemma_edits_keep_track_valid(state, canvas, edits.drop_last(), duration_ms);
        if let Ok(before) = edits_outcome(state, canvas, edits.drop_last()) {
            match edits.last() {
                TimelineEditData::MoveSceneBoundary { left_scene_id, right_scene_id, boundary_ms } => {
                    if boundary_move_refusal(before.0, left_scene_id@, right_scene_id@, boundary_ms) is None {
                        lemma_boundary_move_keeps_track_valid(
                            before.0,
                            left_scene_id@,
                            right_scene_id@,
                            boundary_ms,
                            duration_ms,
                        );
                        let i = choose|i: int| first_scene_with_id(before.0, left_scene_id@, i);
                        let after = track_with_boundary(before.0, i, boundary_ms);
                        assert forall|id: Seq<char>| #[trigger] boundary_scene_ids(edits).contains(id)
                            implies has_scene(after, id) by {
                            if boundary_scene_ids(edits.drop_last()).contains(id) {
                                let j = choose|j: int|
                                    0 <= j < before.0.len() && before.0[j].scene_id@ == id;
                                assert(after[j].scene_id@ == id);
                            } else if id == left_scene_id@ {
                                assert(after[i].scene_id@ == id);
                            } else {
                                assert(id == right_scene_id@);
                                assert(after[i + 1].scene_id@ == id);
                            }
                        }
                    }
                },
                _ => {
                    assert(boundary_scene_ids(edits) =~= boundary_scene_ids(edits.drop_last()));
                },
            }
        }
    }
}


/// Once an edit is refused, the whole sequence is refused the same way.
proof fn lemma_refusal_persists(
    state: (Seq<TimelineScene>, TimelineSafeAreaData, bool),
    canvas: TimelineCanvasData,
    edits: Seq<TimelineEditData>,
    k: int,
)
    requires
        0 < k <= edits.len(),
        edits_outcome(state, canvas, edits.take(k)) is Err,
    ensures
        edits_outcome(state, canvas, edits) == edits_outcome(state, canvas, edits.take(k)),
    decreases edits.len() - k,
{
    if k == edits.len() {
        assert(edits.take(k) =~= edits);
    } else {
        assert(edits.take(k + 1).drop_last() =~= edits.take(k));
        lemma_refusal_persists(state, canvas, edits, k + 1);
    }
}

/// Why applying the edits is refused, with the error's code and message: an
/// invalid base timeline, an invalid request, or the first edit that fails.
pub open spec fn edits_refusal(options: ApplyTimelineEditsOptions) -> Option<(TimelineDomainErrorCode, Seq<char>)> {
    let base = options.base_timeline_document;
    let start = (base.scene_track@, base.safe_area, base.caption_track.visible);
    let outcome = edits_outcome(start, base.canvas, options.edits@);
    if timeline_refusal(base) is Some {
        timeline_refusal(base)
    } else if apply_options_refusal(options) is Some {
        Some((TimelineDomainErrorCode::InvalidRequest, apply_options_refusal(options).unwrap()))
    } else {
        match outcome {
            Err(refusal) => Some(refusal),
            Ok(_) => None,
        }
    }
}

/// What the edited timeline is: the base with the edits' outcome, the new
/// identities and summary, and everything else kept.
pub open spec fn edits_applied(options: ApplyTimelineEditsOptions, doc: TimelineDocument) -> bool {
    let base = options.base_timeline_document;
    let start = (base.scene_track@, base.safe_area, base.caption_track.visible);
    let outcome = edits_outcome(start, base.canvas, options.edits@);
    &&& timeline_refusal(doc) is None
    &&& outcome == Ok::<_, (TimelineDomainErrorCode, Seq<char>)>(
        (doc.scene_track@, doc.safe_area, doc.caption_track.visible),
    )
    &&& strictly_ascending(texts(doc.change_summary.changed_scene_ids@))
    &&& texts(doc.change_summary.changed_scene_ids@).to_set() == boundary_scene_ids(
        options.edits@,
    )
    &&& doc.change_summary.summary@ == options.change_summary@
    &&& doc.timeline_id@ == options.new_timeline_id@
    &&& doc.run_id@ == options.new_run_id@
    &&& doc.created_at@ == options.created_at@
    &&& opt_view(doc.supersedes_artifact_id) == Some(options.base_artifact_id@)
    &&& doc.schema_version == base.schema_version
    &&& doc.document_type == base.document_type
    &&& doc.project_id == base.project_id
    &&& doc.duration_ms == base.duration_ms
    &&& doc.canvas == base.canvas
    &&& doc.audio_track == base.audio_track
    &&& doc.caption_track.captions_artifact_id == base.caption_track.captions_artifact_id
    &&& doc.caption_track.cue_ids == base.caption_track.cue_ids
    &&& doc.input_refs == base.input_refs
    &&& doc.config_snapshot == base.config_snapshot
}

/// Applies edits to a copy of a valid timeline: boundary moves, safe-area
/// changes and caption visibility, in order, all or nothing. The result is a
/// new revision with the new identities, the summary, the base artifact it
/// supersedes and the sorted identifiers of the scenes whose boundaries moved.
pub fn apply_timeline_edits(options: ApplyTimelineEditsOptions) -> (result: Result<
    TimelineDocument,
    TimelineDomainError,
>)
    ensures
        result is Ok <==> edits_refusal(options) is None,
        result matches Ok(doc) ==> edits_applied(options, doc),
        result matches Err(error) ==> Some((error.code, error.message@)) == edits_refusal(options),
{
    validate_timeline_semantics(&options.base_timeline_document)?;
    validate_apply_options(&options)?;
    let ghost base = options.base_timeline_document;
    let ghost start = (base.scene_track@, base.safe_area, base.caption_track.visible);
    let ghost all_edits = options.edits@;
    let ghost request = options;
    let ApplyTimelineEditsOptions {
        base_timeline_document,
        edits,
        change_summary,
        new_run_id,
        new_timeline_id,
        created_at,
        base_artifact_id,
    } = options;
    let mut candidate = base_timeline_document;
    let mut changed: Vec<String> = Vec::new();
    proof {
        assert(edits@.take(0) =~= Seq::<TimelineEditData>::empty());
        assert(texts(changed@).to_set() =~= Set::<Seq<char>>::empty());
    }
    let mut k: usize = 0;
    while k < edits.len()
        invariant
            edits@ == all_edits,
            request == options,
            base == options.base_timeline_document,
            start == (base.scene_track@, base.safe_area, base.caption_track.visible),
            all_edits == options.edits@,
            timeline_refusal(base) is None,
            apply_options_refusal(request) is None,
            0 <= k <= edits@.len(),
            candidate.schema_version == base.schema_version,
            candidate.document_type == base.document_type,
            candidate.timeline_id == base.timeline_id,
            candidate.project_id == base.project_id,
            candidate.run_id == base.run_id,
            candidate.duration_ms == base.duration_ms,
            candidate.canvas == base.canvas,
            candidate.audio_track == base.audio_track,
            candidate.caption_track.captions_artifact_id == base.caption_track.captions_artifact_id,
            candidate.caption_track.cue_ids == base.caption_track.cue_ids,
            candidate.input_refs == base.input_refs,
            candidate.config_snapshot == base.config_snapshot,
            candidate.change_summary == base.change_summary,
            candidate.created_at == base.created_at,
            candidate.supersedes_artifact_id == base.supersedes_artifact_id,
            edits_outcome(start, base.canvas, all_edits.take(k as int)) == Ok::<
                _,
                (TimelineDomainErrorCode, Seq<char>),
            >((candidate.scene_track@, candidate.safe_area, candidate.caption_track.visible)),
            strictly_ascending(texts(changed@)),
            texts(changed@).to_set() == boundary_scene_ids(all_edits.take(k as int)),
        decreases edits@.len() - k,
    {
        proof {
            assert(all_edits.take(k + 1).drop_last() =~= all_edits.take(k as int));
            assert(all_edits.take(k + 1).last() == all_edits[k as int]);
        }
        match &edits[k] {
            TimelineEditData::MoveSceneBoundary { left_scene_id, right_scene_id, boundary_ms } => {
                let ghost changed_before = texts(changed@).to_set();
                match move_scene_boundary(
                    &mut candidate.scene_track,
                    left_scene_id.as_str(),
                    right_scene_id.as_str(),
                    *boundary_ms,
                    &mut changed,
                ) {
                    Ok(()) => {
                        proof {
                            assert(changed_before.insert(left_scene_id@).insert(right_scene_id@)
                                =~= boundary_scene_ids(all_edits.take(k + 1)));
                        }
                    },
                    Err(error) => {
                        proof {
                            lemma_refusal_persists(start, base.canvas, all_edits, k + 1);
                        }
                        return Err(error);
                    },
                }
            },
            TimelineEditData::SetSafeArea { safe_area } => {
                match validate_safe_area(*safe_area, candidate.canvas) {
                    Ok(()) => {},
                    Err(error) => {
                        proof {
                            lemma_refusal_persists(start, base.canvas, all_edits, k + 1);
                        }
                        return Err(error);
                    },
                }
                candidate.safe_area = *safe_area;
                proof {
                    assert(boundary_scene_ids(all_edits.take(k + 1)) =~= boundary_scene_ids(
                        all_edits.take(k as int),
                    ));
                }
            },
            TimelineEditData::SetCaptionVisibility { visible } => {
                candidate.caption_track.visible = *visible;
                proof {
                    assert(boundary_scene_ids(all_edits.take(k + 1)) =~= boundary_scene_ids(
                        all_edits.take(k as int),
                    ));
                }
            },
        }
        k = k + 1;
    }
    proof {
        assert(all_edits.take(all_edits.len() as int) =~= all_edits);
        lemma_edits_keep_track_valid(start, base.canvas, all_edits, base.duration_ms);
    }
    candidate.timeline_id = new_timeline_id;
    candidate.run_id = new_run_id;
    candidate.supersedes_artifact_id = Some(base_artifact_id);
    candidate.change_summary = TimelineChangeSummary {
        summary: change_summary,
        changed_scene_ids: changed,
    };
    candidate.created_at = created_at;
    proof {
        let t = texts(candidate.change_summary.changed_scene_ids@);
        assert forall|q: int| 0 <= q < t.len() implies has_scene(candidate.scene_track@, #[trigger] t[q]) by {
            assert(t.to_set().contains(t[q]));
            assert(boundary_scene_ids(all_edits).contains(t[q]));
        }
    }
    validate_timeline_semantics(&candidate)?;
    Ok(candidate)
}

} // verus!
