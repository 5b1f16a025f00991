use vstd::prelude::*;

use crate::identifiers::{
    artifact_ref_is_valid, artifact_ref_spec, is_sha256, portable_id, portable_id_spec,
    run_id_is_valid, run_id_spec, sha256_ref_spec, string_set_spec, texts, valid_string_set,
};
use crate::media_types::{FrozenArtifactInputData, TimelineCanvasData, TimelineSafeAreaData};
use crate::ordered_set::{insert_sorted, strictly_ascending};
use crate::text::same_text;

verus! {

/// The longest audio a timeline covers: one day.
pub const MAX_AUDIO_DURATION_MS: u64 = 86_400_000;

/// The most scenes a timeline holds.
pub const MAX_TIMELINE_SCENES: usize = 10_000;

/// The most caption cues a timeline references.
pub const MAX_TIMELINE_CUES: usize = 10_000;

/// The most edits one request applies.
pub const MAX_TIMELINE_EDITS: usize = 1_000;

/// The largest canvas side, in pixels.
pub const MAX_CANVAS_DIMENSION: u32 = 16_384;

/// Why a timeline operation was refused.
#[derive(Debug, Clone, Copy, PartialEq, Eq, Structural)]
pub enum TimelineDomainErrorCode {
    InvalidRequest,
    InvalidInput,
    InvalidTimeline,
    InvalidEdit,
    ResourceLimitExceeded,
    ContractViolation,
}

/// A refused timeline operation.
#[derive(Debug, Clone, PartialEq, Eq)]
pub struct TimelineDomainError {
    pub code: TimelineDomainErrorCode,
    pub message: String,
}

impl TimelineDomainError {
    /// An error with `code` and `message`.
    pub fn new(code: TimelineDomainErrorCode, message: &str) -> (error: Self)
        ensures
            error.code == code,
            error.message@ == message@,
    {
        TimelineDomainError { code, message: message.to_owned() }
    }
}

/// A timeline error with an owned message.
pub(crate) fn error_with(code: TimelineDomainErrorCode, message: String) -> (error: TimelineDomainError)
    ensures
        error.code == code,
        error.message@ == message@,
{
    TimelineDomainError { code, message }
}

/// A canvas of 16 to 16384 pixels per side whose frame rate
/// `numerator / denominator` lies between 1 and 240 frames per second.
pub open spec fn canvas_valid(canvas: TimelineCanvasData) -> bool {
    &&& 16 <= canvas.width <= MAX_CANVAS_DIMENSION
    &&& 16 <= canvas.height <= MAX_CANVAS_DIMENSION
    &&& 0 < canvas.frame_rate_numerator <= 240_000
    &&& 0 < canvas.frame_rate_denominator <= 10_000
    &&& canvas.frame_rate_numerator >= canvas.frame_rate_denominator
    &&& canvas.frame_rate_numerator <= 240 * canvas.frame_rate_denominator
}

/// A canvas of valid size may run at any frame rate from 1 to 240 frames per
/// second: with the rate written as `f` times the denominator over the
/// denominator (such as 60/1, or 24000/1000), the canvas is valid exactly when
/// `1 <= f <= 240`.
pub proof fn lemma_canvas_frame_rates(canvas: TimelineCanvasData, f: int)
    requires
        16 <= canvas.width <= MAX_CANVAS_DIMENSION,
        16 <= canvas.height <= MAX_CANVAS_DIMENSION,
        0 < canvas.frame_rate_denominator <= 10_000,
        canvas.frame_rate_numerator <= 240_000,
        canvas.frame_rate_numerator == f * canvas.frame_rate_denominator,
    ensures
        canvas_valid(canvas) <==> 1 <= f <= 240,
{
    let n = canvas.frame_rate_numerator as int;
    let d = canvas.frame_rate_denominator as int;
    assert((n >= d) <==> (f >= 1)) by (nonlinear_arith)
        requires
            n == f * d,
            d > 0,
    ;
    assert((n <= 240 * d) <==> (f <= 240)) by (nonlinear_arith)
        requires
            n == f * d,
            d > 0,
    ;
}

/// At 60 frames per second (60/1), a canvas is valid exactly when each side
/// lies between 16 pixels and the largest canvas side.
pub proof fn lemma_canvas_sizes(canvas: TimelineCanvasData)
    requires
        canvas.frame_rate_numerator == 60,
        canvas.frame_rate_denominator == 1,
    ensures
        canvas_valid(canvas) <==> (16 <= canvas.width <= MAX_CANVAS_DIMENSION && 16 <= canvas.height
            <= MAX_CANVAS_DIMENSION),
{
}

/// Checks a timeline canvas.
pub fn validate_canvas(canvas: TimelineCanvasData) -> (result: Result<(), TimelineDomainError>)
    ensures
        result is Ok <==> canvas_valid(canvas),
        result matches Err(error) ==> error.code == TimelineDomainErrorCode::InvalidRequest
            && error.message@ == "Timeline canvas 尺寸或 frameRate rational 无效。"@,
{
    let numerator = canvas.frame_rate_numerator as u64;
    let denominator = canvas.frame_rate_denominator as u64;
    let rational_valid = canvas.frame_rate_numerator > 0 && canvas.frame_rate_numerator <= 240_000
        && canvas.frame_rate_denominator > 0 && canvas.frame_rate_denominator <= 10_000
        && numerator >= denominator && numerator <= 240 * denominator;
    if !(16 <= canvas.width && canvas.width <= MAX_CANVAS_DIMENSION) || !(16 <= canvas.height
        && canvas.height <= MAX_CANVAS_DIMENSION) || !rational_valid {
        return Err(
            TimelineDomainError::new(
                TimelineDomainErrorCode::InvalidRequest,
                "Timeline canvas 尺寸或 frameRate rational 无效。",
            ),
        );
    }
    Ok(())
}

/// A non-empty safe area of sides at most 16384 pixels, at an offset of at
/// most 16384 pixels, that fits inside the canvas.
pub open spec fn safe_area_valid(safe_area: TimelineSafeAreaData, canvas: TimelineCanvasData) -> bool {
    &&& 0 < safe_area.width <= MAX_CANVAS_DIMENSION
    &&& 0 < safe_area.height <= MAX_CANVAS_DIMENSION
    &&& safe_area.x <= MAX_CANVAS_DIMENSION
    &&& safe_area.y <= MAX_CANVAS_DIMENSION
    &&& safe_area.x + safe_area.width <= canvas.width
    &&& safe_area.y + safe_area.height <= canvas.height
}

/// Checks that a safe area lies within the canvas.
pub fn validate_safe_area(safe_area: TimelineSafeAreaData, canvas: TimelineCanvasData) -> (result:
    Result<(), TimelineDomainError>)
    ensures
        result is Ok <==> safe_area_valid(safe_area, canvas),
        result matches Err(error) ==> error.code == TimelineDomainErrorCode::InvalidRequest
            && error.message@ == "Timeline safeArea 必须无溢出地位于 canvas 范围内。"@,
{
    let right = safe_area.x.checked_add(safe_area.width);
    let bottom = safe_area.y.checked_add(safe_area.height);
    let right_ok = match right {
        Some(r) => r <= canvas.width,
        None => false,
    };
    let bottom_ok = match bottom {
        Some(b) => b <= canvas.height,
        None => false,
    };
    if safe_area.width == 0 || safe_area.height == 0 || safe_area.x > MAX_CANVAS_DIMENSION
        || safe_area.y > MAX_CANVAS_DIMENSION || safe_area.width > MAX_CANVAS_DIMENSION
        || safe_area.height > MAX_CANVAS_DIMENSION || !right_ok || !bottom_ok {
        return Err(
            TimelineDomainError::new(
                TimelineDomainErrorCode::InvalidRequest,
                "Timeline safeArea 必须无溢出地位于 canvas 范围内。",
            ),
        );
    }
    Ok(())
}

/// A frozen input of the expected stage with valid identities, a canonical
/// content hash and bounded traceability sets.
pub open spec fn frozen_input_valid(input: FrozenArtifactInputData, stage_id: Seq<char>) -> bool {
    &&& input.stage_id@ == stage_id
    &&& run_id_spec(input.run_id@)
    &&& artifact_ref_spec(input.artifact_id@)
    &&& sha256_ref_spec(input.content_hash@)
    &&& portable_id_spec(input.review_record_id@, 160)
    &&& string_set_spec(texts(input.claim_ids@))
    &&& string_set_spec(texts(input.evidence_refs@))
}

/// Whether a frozen input is valid for the stage `stage_id`.
pub fn frozen_input_is_valid(input: &FrozenArtifactInputData, stage_id: &str) -> (result: bool)
    ensures
        result == frozen_input_valid(*input, stage_id@),
{
    same_text(input.stage_id.as_str(), stage_id) && run_id_is_valid(input.run_id.as_str())
        && artifact_ref_is_valid(input.artifact_id.as_str()) && is_sha256(
        input.content_hash.as_str(),
    ) && portable_id(input.review_record_id.as_str()) && valid_string_set(&input.claim_ids)
        && valid_string_set(&input.evidence_refs)
}

/// Checks a frozen timeline input of the stage `expected_stage_id`.
pub fn validate_frozen_input(input: &FrozenArtifactInputData, expected_stage_id: &str) -> (result:
    Result<(), TimelineDomainError>)
    ensures
        result is Ok <==> frozen_input_valid(*input, expected_stage_id@),
        result matches Err(error) ==> error.code == TimelineDomainErrorCode::InvalidRequest
            && error.message@ == "Timeline "@ + expected_stage_id@ + " 冻结输入无效。"@,
{
    if !frozen_input_is_valid(input, expected_stage_id) {
        let mut message = String::from_str("Timeline ");
        message.append(expected_stage_id);
        message.append(" 冻结输入无效。");
        return Err(error_with(TimelineDomainErrorCode::InvalidRequest, message));
    }
    Ok(())
}

/// Input `i` belongs to the stage `stage_id`.
pub open spec fn input_of_stage(inputs: Seq<FrozenArtifactInputData>, i: int, stage_id: Seq<char>) -> bool {
    0 <= i < inputs.len() && inputs[i].stage_id@ == stage_id
}


/// Why the input of the stage `stage_id` cannot be picked, if it cannot.
pub open spec fn stage_input_refusal(inputs: Seq<FrozenArtifactInputData>, stage_id: Seq<char>) -> Option<
    Seq<char>,
> {
    if !(exists|i: int| input_of_stage(inputs, i, stage_id)) {
        Some("Timeline 缺少 "@ + stage_id + " inputRef。"@)
    } else if !(forall|i: int, j: int|
        input_of_stage(inputs, i, stage_id) && input_of_stage(inputs, j, stage_id) ==> i == j) {
        Some("Timeline 包含重复 "@ + stage_id + " inputRef。"@)
    } else {
        None
    }
}

/// The single input of the stage `stage_id`.
pub open spec fn stage_input(inputs: Seq<FrozenArtifactInputData>, stage_id: Seq<char>) -> FrozenArtifactInputData {
    inputs[choose|i: int| input_of_stage(inputs, i, stage_id)]
}

/// The single input of the stage `stage_id`; refused when there is none or
/// more than one.
pub fn required_input_for_stage<'a>(inputs: &'a [FrozenArtifactInputData], stage_id: &str) -> (result:
    Result<&'a FrozenArtifactInputData, TimelineDomainError>)
    ensures
        result is Ok <==> (exists|i: int| input_of_stage(inputs@, i, stage_id@)) && (forall|i: int, j: int|
            input_of_stage(inputs@, i, stage_id@) && input_of_stage(inputs@, j, stage_id@) ==> i
                == j),
        result is Ok <==> stage_input_refusal(inputs@, stage_id@) is None,
        result matches Ok(input) ==> *input == stage_input(inputs@, stage_id@),
        result matches Err(error) ==> Some(error.message@) == stage_input_refusal(inputs@, stage_id@),
        result matches Err(error) ==> {
            &&& error.code == TimelineDomainErrorCode::InvalidTimeline
            &&& error.message@ == if exists|i: int| input_of_stage(inputs@, i, stage_id@) {
                "Timeline 包含重复 "@ + stage_id@ + " inputRef。"@
            } else {
                "Timeline 缺少 "@ + stage_id@ + " inputRef。"@
            }
        },
{
    let mut found: Option<usize> = None;
    let mut i: usize = 0;
    while i < inputs.len()
        invariant
            0 <= i <= inputs@.len(),
            found matches Some(f) ==> f < i && input_of_stage(inputs@, f as int, stage_id@),
            forall|j: int| 0 <= j < i && input_of_stage(inputs@, j, stage_id@) ==> found == Some(
                j as usize,
            ),
        decreases inputs@.len() - i,
    {
        if same_text(inputs[i].stage_id.as_str(), stage_id) {
            if let Some(first) = found {
                let mut message = String::from_str("Timeline 包含重复 ");
                message.append(stage_id);
                message.append(" inputRef。");
                assert(input_of_stage(inputs@, first as int, stage_id@));
                assert(input_of_stage(inputs@, i as int, stage_id@));
                return Err(error_with(TimelineDomainErrorCode::InvalidTimeline, message));
            }
            found = Some(i);
        }
        i = i + 1;
    }
    match found {
        Some(f) => Ok(&inputs[f]),
        None => {
            let mut message = String::from_str("Timeline 缺少 ");
            message.append(stage_id);
            message.append(" inputRef。");
            Err(error_with(TimelineDomainErrorCode::InvalidTimeline, message))
        },
    }
}

/// One scene on a timeline's scene track.
#[derive(Debug, Clone, PartialEq, Eq)]
pub struct TimelineScene {
    pub scene_id: String,
    pub start_ms: u64,
    pub end_ms: u64,
}

/// Scene `i` continues the track: a portable identifier not used before it,
/// starting where the previous scene ends (at 0 for the first), non-empty,
/// and ending within the duration.
pub open spec fn scene_fits(scenes: Seq<TimelineScene>, i: int, duration_ms: u64) -> bool {
    &&& portable_id_spec(scenes[i].scene_id@, 160)
    &&& forall|j: int| 0 <= j < i ==> scenes[j].scene_id@ != scenes[i].scene_id@
    &&& scenes[i].start_ms == if i == 0 {
        0
    } else {
        scenes[i - 1].end_ms
    }
    &&& scenes[i].start_ms < scenes[i].end_ms
    &&& scenes[i].end_ms <= duration_ms
}

/// A scene track: 1 to 10000 scenes with distinct identifiers that cover
/// `[0, duration_ms)` in order, without holes or overlaps.
pub open spec fn scene_track_valid(scenes: Seq<TimelineScene>, duration_ms: u64) -> bool {
    &&& 0 < scenes.len() <= MAX_TIMELINE_SCENES
    &&& forall|i: int| 0 <= i < scenes.len() ==> #[trigger] scene_fits(scenes, i, duration_ms)
    &&& scenes.last().end_ms == duration_ms
}


/// Why a scene track is refused, if it is.
pub open spec fn scene_track_refusal(scenes: Seq<TimelineScene>, duration_ms: u64) -> Option<Seq<char>> {
    if !(0 < scenes.len() <= MAX_TIMELINE_SCENES) {
        Some("sceneTrack 缺失、为空或超过上限。"@)
    } else if exists|i: int| 0 <= i < scenes.len() && !scene_fits(scenes, i, duration_ms) {
        Some("sceneTrack 必须 ID 唯一、按序完整覆盖音频且无洞无重叠。"@)
    } else if scenes.last().end_ms != duration_ms {
        Some("sceneTrack 未覆盖 Timeline 完整 duration。"@)
    } else {
        None
    }
}

/// Whether scene `i`'s identifier is used by an earlier scene.
fn scene_id_used_before(scenes: &[TimelineScene], i: usize) -> (result: bool)
    requires
        i < scenes@.len(),
    ensures
        result == exists|j: int| 0 <= j < i && scenes@[j].scene_id@ == scenes@[i as int].scene_id@,
{
    let mut j: usize = 0;
    while j < i
        invariant
            i < scenes@.len(),
            0 <= j <= i,
            forall|q: int| 0 <= q < j ==> scenes@[q].scene_id@ != scenes@[i as int].scene_id@,
        decreases i - j,
    {
        if same_text(scenes[j].scene_id.as_str(), scenes[i].scene_id.as_str()) {
            return true;
        }
        j = j + 1;
    }
    false
}

/// Checks a timeline's scene track against its duration.
pub fn validate_scene_track(scenes: &[TimelineScene], duration_ms: u64) -> (result: Result<
    (),
    TimelineDomainError,
>)
    ensures
        result is Ok <==> scene_track_valid(scenes@, duration_ms),
        result is Ok <==> scene_track_refusal(scenes@, duration_ms) is None,
        result matches Err(error) ==> Some(error.message@) == scene_track_refusal(scenes@, duration_ms),
        result matches Err(error) ==> {
            &&& error.code == TimelineDomainErrorCode::InvalidTimeline
            &&& error.message@ == if !(0 < scenes@.len() <= MAX_TIMELINE_SCENES) {
                "sceneTrack 缺失、为空或超过上限。"@
            } else if exists|i: int| 0 <= i < scenes@.len() && !scene_fits(scenes@, i, duration_ms) {
                "sceneTrack 必须 ID 唯一、按序完整覆盖音频且无洞无重叠。"@
            } else {
                "sceneTrack 未覆盖 Timeline 完整 duration。"@
            }
        },
{
    if scenes.len() == 0 || scenes.len() > MAX_TIMELINE_SCENES {
        return Err(
            TimelineDomainError::new(
                TimelineDomainErrorCode::InvalidTimeline,
                "sceneTrack 缺失、为空或超过上限。",
            ),
        );
    }
    let mut previous_end: u64 = 0;
    let mut i: usize = 0;
    while i < scenes.len()
        invariant
            0 < scenes@.len() <= MAX_TIMELINE_SCENES,
            0 <= i <= scenes@.len(),
            previous_end == if i == 0 {
                0
            } else {
                scenes@[i - 1].end_ms
            },
            forall|j: int| 0 <= j < i ==> #[trigger] scene_fits(scenes@, j, duration_ms),
        decreases scenes@.len() - i,
    {
        let scene = &scenes[i];
        if !portable_id(scene.scene_id.as_str()) || scene_id_used_before(scenes, i)
            || scene.start_ms != previous_end || scene.start_ms >= scene.end_ms || scene.end_ms
            > duration_ms {
            assert(!scene_fits(scenes@, i as int, duration_ms));
            return Err(
                TimelineDomainError::new(
                    TimelineDomainErrorCode::InvalidTimeline,
                    "sceneTrack 必须 ID 唯一、按序完整覆盖音频且无洞无重叠。",
                ),
            );
        }
        previous_end = scene.end_ms;
        i = i + 1;
    }
    if previous_end != duration_ms {
        return Err(
            TimelineDomainError::new(
                TimelineDomainErrorCode::InvalidTimeline,
                "sceneTrack 未覆盖 Timeline 完整 duration。",
            ),
        );
    }
    Ok(())
}

/// Scene `i` is the first scene with the identifier `id`.
pub open spec fn first_scene_with_id(scenes: Seq<TimelineScene>, id: Seq<char>, i: int) -> bool {
    &&& 0 <= i < scenes.len()
    &&& scenes[i].scene_id@ == id
    &&& forall|j: int| 0 <= j < i ==> scenes[j].scene_id@ != id
}

/// Why moving the boundary between `left` and `right` to `boundary_ms` is
/// refused, if it is.
pub open spec fn boundary_move_refusal(
    scenes: Seq<TimelineScene>,
    left: Seq<char>,
    right: Seq<char>,
    boundary_ms: u64,
) -> Option<Seq<char>> {
    if !portable_id_spec(left, 160) || !portable_id_spec(right, 160) {
        Some("Timeline scene 边界编辑引用无效。"@)
    } else if !(exists|i: int| first_scene_with_id(scenes, left, i)) {
        Some("move_scene_boundary 左侧 Scene 不存在。"@)
    } else {
        let i = choose|i: int| first_scene_with_id(scenes, left, i);
        if !(i + 1 < scenes.len() && scenes[i + 1].scene_id@ == right) {
            Some("move_scene_boundary 仅允许调整相邻左右 Scene。"@)
        } else if boundary_ms <= scenes[i].start_ms || boundary_ms >= scenes[i + 1].end_ms
            || boundary_ms == scenes[i].end_ms {
            Some("新 Scene 边界必须严格位于相邻两端之间且不能是当前边界。"@)
        } else {
            None
        }
    }
}

/// The track after moving the boundary after scene `i` to `boundary_ms`.
pub open spec fn track_with_boundary(scenes: Seq<TimelineScene>, i: int, boundary_ms: u64) -> Seq<
    TimelineScene,
> {
    scenes.update(
        i,
        TimelineScene { scene_id: scenes[i].scene_id, start_ms: scenes[i].start_ms, end_ms: boundary_ms },
    ).update(
        i + 1,
        TimelineScene {
            scene_id: scenes[i + 1].scene_id,
            start_ms: boundary_ms,
            end_ms: scenes[i + 1].end_ms,
        },
    )
}

/// The index of the first scene with identifier `id`, if any.
pub fn find_scene(scenes: &[TimelineScene], id: &str) -> (found: Option<usize>)
    ensures
        found matches Some(i) ==> first_scene_with_id(scenes@, id@, i as int),
        found is None ==> !(exists|i: int| first_scene_with_id(scenes@, id@, i)),
{
    let mut i: usize = 0;
    while i < scenes.len()
        invariant
            0 <= i <= scenes@.len(),
            forall|j: int| 0 <= j < i ==> scenes@[j].scene_id@ != id@,
        decreases scenes@.len() - i,
    {
        if same_text(scenes[i].scene_id.as_str(), id) {
            return Some(i);
        }
        i = i + 1;
    }
    None
}

/// Moves the boundary between the adjacent scenes `left_scene_id` and
/// `right_scene_id` to `boundary_ms`, and records both scenes as changed.
pub fn move_scene_boundary(
    scenes: &mut Vec<TimelineScene>,
    left_scene_id: &str,
    right_scene_id: &str,
    boundary_ms: u64,
    changed: &mut Vec<String>,
) -> (result: Result<(), TimelineDomainError>)
    requires
        strictly_ascending(texts(old(changed)@)),
    ensures
        result is Ok <==> boundary_move_refusal(old(scenes)@, left_scene_id@, right_scene_id@, boundary_ms)
            is None,
        result is Ok ==> {
            let i = choose|i: int| first_scene_with_id(old(scenes)@, left_scene_id@, i);
            &&& final(scenes)@ == track_with_boundary(old(scenes)@, i, boundary_ms)
            &&& strictly_ascending(texts(final(changed)@))
            &&& texts(final(changed)@).to_set() == texts(old(changed)@).to_set().insert(
                left_scene_id@,
            ).insert(right_scene_id@)
        },
        result matches Err(error) ==> {
            &&& final(scenes)@ == old(scenes)@
            &&& final(changed)@ == old(changed)@
            &&& error.code == TimelineDomainErrorCode::InvalidEdit
            &&& Some(error.message@) == boundary_move_refusal(
                old(scenes)@,
                left_scene_id@,
                right_scene_id@,
                boundary_ms,
            )
        },
{
    if !portable_id(left_scene_id) || !portable_id(right_scene_id) {
        return Err(
            TimelineDomainError::new(
                TimelineDomainErrorCode::InvalidEdit,
                "Timeline scene 边界编辑引用无效。",
            ),
        );
    }
    let left_index = match find_scene(scenes.as_slice(), left_scene_id) {
        Some(i) => i,
        None => {
            return Err(
                TimelineDomainError::new(
                    TimelineDomainErrorCode::InvalidEdit,
                    "move_scene_boundary 左侧 Scene 不存在。",
                ),
            );
        },
    };
    proof {
        let c = choose|i: int| first_scene_with_id(old(scenes)@, left_scene_id@, i);
        assert(first_scene_with_id(old(scenes)@, left_scene_id@, c));
        assert(c == left_index) by {
            if c < left_index {
                assert(scenes@[c].scene_id@ != left_scene_id@);
            } else if c > left_index {
                assert(scenes@[left_index as int].scene_id@ != left_scene_id@);
            }
        }
    }
    if left_index >= scenes.len() - 1 || !same_text(
        scenes[left_index + 1].scene_id.as_str(),
        right_scene_id,
    ) {
        return Err(
            TimelineDomainError::new(
                TimelineDomainErrorCode::InvalidEdit,
                "move_scene_boundary 仅允许调整相邻左右 Scene。",
            ),
        );
    }
    let right_index = left_index + 1;
    let combined_start = scenes[left_index].start_ms;
    let current_boundary = scenes[left_index].end_ms;
    let combined_end = scenes[right_index].end_ms;
    if boundary_ms <= combined_start || boundary_ms >= combined_end || boundary_ms
        == current_boundary {
        return Err(
            TimelineDomainError::new(
                TimelineDomainErrorCode::InvalidEdit,
                "新 Scene 边界必须严格位于相邻两端之间且不能是当前边界。",
            ),
        );
    }
    scenes[left_index].end_ms = boundary_ms;
    scenes[right_index].start_ms = boundary_ms;
    insert_sorted(changed, left_scene_id);
    insert_sorted(changed, right_scene_id);
    proof {
        assert(scenes@ =~= track_with_boundary(old(scenes)@, left_index as int, boundary_ms));
    }
    Ok(())
}

/// Moving a scene boundary keeps a valid scene track valid, with the same
/// scenes in the same order and only the two adjacent scenes retimed.
pub proof fn lemma_boundary_move_keeps_track_valid(
    scenes: Seq<TimelineScene>,
    left: Seq<char>,
    right: Seq<char>,
    boundary_ms: u64,
    duration_ms: u64,
)
    requires
        scene_track_valid(scenes, duration_ms),
        boundary_move_refusal(scenes, left, right, boundary_ms) is None,
    ensures
        ({
            let i = choose|i: int| first_scene_with_id(scenes, left, i);
            let moved = track_with_boundary(scenes, i, boundary_ms);
            &&& scene_track_valid(moved, duration_ms)
            &&& moved.len() == scenes.len()
            &&& forall|j: int| 0 <= j < scenes.len() ==> #[trigger] moved[j].scene_id@ == scenes[j].scene_id@
            &&& forall|j: int| 0 <= j < scenes.len() && j != i && j != i + 1 ==> #[trigger] moved[j] == scenes[j]
            &&& moved[i].end_ms == boundary_ms && moved[i + 1].start_ms == boundary_ms
        }),
{
    let i = choose|i: int| first_scene_with_id(scenes, left, i);
    let moved = track_with_boundary(scenes, i, boundary_ms);
    assert(scene_fits(scenes, i, duration_ms));
    assert(scene_fits(scenes, i + 1, duration_ms));
    assert forall|j: int| 0 <= j < moved.len() implies #[trigger] scene_fits(moved, j, duration_ms) by {
        assert(scene_fits(scenes, j, duration_ms));
        if j > 0 {
            assert(scene_fits(scenes, j - 1, duration_ms));
        }
        assert forall|q: int| 0 <= q < j implies moved[q].scene_id@ != moved[j].scene_id@ by {
            assert(moved[q].scene_id@ == scenes[q].scene_id@);
        }
        if j + 1 < scenes.len() {
            assert(scene_fits(scenes, j + 1, duration_ms));
        }
    }
    assert(scene_fits(scenes, scenes.len() - 1, duration_ms));
}

} // verus!
