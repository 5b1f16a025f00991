use vstd::prelude::*;

use crate::renderer_error::{RendererOperation, RendererServiceError, RendererServiceErrorCode};
use crate::renderer_rules::{
    check_render_matches_timeline, check_upstream_reference, render_config_from_timeline,
    render_request_allowed, target_scene_count, upstream_unchanged, validate_request_shape,
    validate_target_scene_capacity, RenderCanvasData, RenderConfigData, UpstreamReferenceFacts,
    MAX_JOB_ARTIFACTS, RENDERER_MAX_SCENES, RENDER_FIXED_ARTIFACTS,
};
use crate::renderer_types::{RenderTargetData, RendererTimelineInputData};
use crate::scene_snapshot::SnapshotCanvasField;
use crate::storage_error::opt_view;
use crate::text::same_text;

verus! {

/// A request to render an approved timeline.
#[derive(Debug, Clone, PartialEq, Eq)]
pub struct EnqueueRenderOptions {
    pub project_path: String,
    pub expected_project_id: String,
    pub run_id: String,
    pub timeline_input: RendererTimelineInputData,
    pub target: RenderTargetData,
    pub config: RenderConfigData,
    pub idempotency_key: String,
}

/// An upstream reference the timeline records, each field where it is a text.
#[derive(Debug, Clone, PartialEq, Eq)]
pub struct RenderUpstreamRef {
    pub artifact_id: Option<String>,
    pub stage_id: Option<String>,
    pub content_hash: Option<String>,
    pub run_id: Option<String>,
}

/// What a render reads of the frozen timeline document. A field that is
/// missing or not of its type is `None`; `scene_track` holds each scene's
/// identifier where it is a text.
#[derive(Debug, Clone, PartialEq, Eq)]
pub struct RenderTimelineFields {
    pub document_type: Option<String>,
    pub project_id: Option<String>,
    pub run_id: Option<String>,
    pub duration_ms: Option<u64>,
    pub canvas: SnapshotCanvasField,
    pub input_refs: Option<Vec<RenderUpstreamRef>>,
    pub scene_track: Option<Vec<Option<String>>>,
}

/// What the storage reported of an upstream artifact: its stored metadata,
/// each field where it is a text, and whether its content passed its check.
#[derive(Debug, Clone, PartialEq, Eq)]
pub struct UpstreamArtifactRead {
    pub owner_project_id: String,
    pub project_id: Option<String>,
    pub stage_id: Option<String>,
    pub run_id: Option<String>,
    pub content_hash: Option<String>,
    pub content_verified: bool,
}

/// An artifact the audio document was made from, with its kind where the
/// stored metadata gives it as a text.
#[derive(Debug, Clone, PartialEq, Eq)]
pub struct AudioSourceCandidate {
    pub artifact_id: String,
    pub kind: Option<String>,
}

/// Where the preparation of a render stands: the outside work it waits for.
#[derive(Debug, Clone, Copy, PartialEq, Eq, Structural)]
pub enum PrepareRenderStage {
    AwaitProject,
    AwaitApproval,
    AwaitTimeline,
    AwaitUpstream,
    AwaitAudioSource,
    AwaitRawAudio,
    Done,
}

/// The outside work the preparation asks for next.
#[derive(Debug, Clone, Copy, PartialEq, Eq, Structural)]
pub enum PrepareRenderAction {
    /// Open the project at the request's path.
    OpenProject,
    /// Have the workflow approve the timeline input for the render stage.
    ApproveTimeline,
    /// Check the timeline artifact's content and read its document.
    ReadTimeline,
    /// Read the metadata and check the content of each upstream artifact the
    /// timeline records, in order.
    ReadUpstream,
    /// Read the kinds of the artifacts the audio was made from, in order.
    ResolveAudioSource,
    /// Check the content of the state's raw audio artifact and, if it passes,
    /// read it.
    CheckRawAudio,
    /// Build a snapshot of each target scene.
    BuildSnapshots,
}

/// What the outside work of a render preparation reported.
#[derive(Debug, Clone, PartialEq, Eq)]
pub enum PrepareRenderEvent {
    ProjectOpened { project_id: String },
    TimelineApproved,
    TimelineRead { content_verified: bool, timeline: RenderTimelineFields },
    UpstreamRead { reads: Vec<UpstreamArtifactRead>, audio_sources: Option<Vec<String>> },
    AudioSourceResolved { candidates: Vec<AudioSourceCandidate> },
    RawAudioChecked { verified: bool },
}

/// A render preparation in progress.
#[derive(Debug, Clone, PartialEq, Eq)]
pub struct PrepareRenderState {
    pub stage: PrepareRenderStage,
    pub operation: RendererOperation,
    pub preview_only: bool,
    pub options: EnqueueRenderOptions,
    /// The timeline's upstream references, once it is read.
    pub upstream: Vec<RenderUpstreamRef>,
    /// The timeline's scene track, once it is read.
    pub scene_track: Option<Vec<Option<String>>>,
    /// The artifacts the render reads, in the order it reads them.
    pub source_artifact_ids: Vec<String>,
    /// The artifacts the audio document names as its sources.
    pub audio_sources: Option<Vec<String>>,
    /// The raw audio artifact the render plays.
    pub raw_audio_artifact_id: String,
    /// The scenes to snapshot, in order.
    pub target_scene_ids: Vec<String>,
}

/// Why a preparation stops: the error's code and message and the artifact it
/// names, if any.
pub struct RenderRefusal {
    pub code: RendererServiceErrorCode,
    pub message: Seq<char>,
    pub artifact_id: Option<Seq<char>>,
}

/// `error` reports `refusal` for `operation`.
pub open spec fn refused_as(error: RendererServiceError, refusal: RenderRefusal, operation: RendererOperation) -> bool {
    &&& error.code == refusal.code
    &&& error.operation == operation
    &&& error.message@ == refusal.message
    &&& !error.retryable
    &&& opt_view(error.artifact_id) == refusal.artifact_id
}

/// A refusal that names no artifact.
pub open spec fn plain(code: RendererServiceErrorCode, message: Seq<char>) -> RenderRefusal {
    RenderRefusal { code, message, artifact_id: None }
}

/// A contract violation that names no artifact.
pub open spec fn contract(message: Seq<char>) -> RenderRefusal {
    plain(RendererServiceErrorCode::ContractViolation, message)
}

/// A required text field: present, with 1 to 2048 bytes.
pub open spec fn required_ok(value: Option<String>) -> bool {
    match value {
        Some(text) => 0 < vstd::utf8::encode_utf8(text@).len() <= 2048,
        None => false,
    }
}

/// The event is the report of the work the stage waits for; upstream reads
/// come one per recorded reference.
pub open spec fn prepare_awaited(state: PrepareRenderState, event: PrepareRenderEvent) -> bool {
    match (state.stage, event) {
        (PrepareRenderStage::AwaitProject, PrepareRenderEvent::ProjectOpened { .. }) => true,
        (PrepareRenderStage::AwaitApproval, PrepareRenderEvent::TimelineApproved) => true,
        (PrepareRenderStage::AwaitTimeline, PrepareRenderEvent::TimelineRead { .. }) => true,
        (PrepareRenderStage::AwaitUpstream, PrepareRenderEvent::UpstreamRead { reads, .. }) => reads@.len()
            == state.upstream@.len(),
        (PrepareRenderStage::AwaitAudioSource, PrepareRenderEvent::AudioSourceResolved { .. }) => true,
        (PrepareRenderStage::AwaitRawAudio, PrepareRenderEvent::RawAudioChecked { .. }) => true,
        _ => false,
    }
}

/// The configuration a render of this timeline uses: the default one on the
/// timeline's canvas for a preview, the request's own otherwise.
pub open spec fn timeline_config(state: PrepareRenderState, canvas: RenderCanvasData, config: RenderConfigData) -> bool {
    if state.preview_only {
        crate::renderer_rules::default_render_config(canvas, config)
    } else {
        config == state.options.config
    }
}

/// Why the timeline document cannot be rendered, checked in this order: its
/// content, its identity, its duration, its canvas, the request against it,
/// its upstream references.
pub open spec fn timeline_refusal(state: PrepareRenderState, content_verified: bool, timeline: RenderTimelineFields) -> Option<
    RenderRefusal,
> {
    let options = state.options;
    if !content_verified {
        Some(
            RenderRefusal {
                code: RendererServiceErrorCode::InputHashMismatch,
                message: "Artifact 内容哈希或字节数复验失败。"@,
                artifact_id: Some(options.timeline_input.artifact_id@),
            },
        )
    } else if !(opt_view(timeline.document_type) == Some("timeline"@) && opt_view(timeline.project_id)
        == Some(options.expected_project_id@) && opt_view(timeline.run_id) == Some(
        options.timeline_input.run_id@,
    )) {
        Some(plain(RendererServiceErrorCode::CrossProjectReference, "Timeline 文档身份与冻结引用不一致。"@))
    } else if timeline.duration_ms is None {
        Some(contract("缺少整数宇段 durationMs。"@))
    } else if timeline.canvas is Missing {
        Some(contract("Timeline 缺少 canvas。"@))
    } else if state.preview_only && timeline.canvas is Invalid {
        Some(contract("Timeline canvas 无效。"@))
    } else if !state.preview_only && !render_request_allowed(
        options.timeline_input.stage_id@,
        options.run_id@,
        options.idempotency_key@,
        options.config,
    ) {
        Some(plain(RendererServiceErrorCode::InvalidRequest, "Renderer 请求包含未授权配置或无效身份。"@))
    } else if !state.preview_only && !(timeline.canvas == SnapshotCanvasField::Canvas(options.config.canvas)
        && timeline.duration_ms.unwrap() <= options.config.max_duration_ms) {
        Some(
            plain(
                RendererServiceErrorCode::InvalidRequest,
                "渲染画布/帧率必须与冻结 Timeline 完全一致，且时长不能超过配置上限。"@,
            ),
        )
    } else if timeline.input_refs is None {
        Some(contract("Timeline 缺少 inputRefs。"@))
    } else {
        None
    }
}

/// Why one upstream reference cannot be used, checked in this order: its
/// required fields, its stored metadata, its content, its stage.
pub open spec fn reference_refusal(project_id: Seq<char>, reference: RenderUpstreamRef, read: UpstreamArtifactRead) -> Option<
    RenderRefusal,
> {
    if !required_ok(reference.artifact_id) {
        Some(contract("缺少字符串字段 artifactId。"@))
    } else if !required_ok(reference.stage_id) {
        Some(contract("缺少字符串字段 stageId。"@))
    } else if !required_ok(reference.content_hash) {
        Some(contract("缺少字符串字段 contentHash。"@))
    } else if !upstream_unchanged(upstream_facts(reference, read), project_id) {
        Some(
            RenderRefusal {
                code: RendererServiceErrorCode::InputHashMismatch,
                message: "Timeline 的上游引用发生身份或哈希漂移。"@,
                artifact_id: Some(reference.artifact_id.unwrap()@),
            },
        )
    } else if !read.content_verified {
        Some(
            RenderRefusal {
                code: RendererServiceErrorCode::InputHashMismatch,
                message: "Artifact 内容哈希或字节数复验失败。"@,
                artifact_id: Some(reference.artifact_id.unwrap()@),
            },
        )
    } else if !(reference.stage_id.unwrap()@ == "scene_plan"@ || reference.stage_id.unwrap()@ == "audio"@
        || reference.stage_id.unwrap()@ == "captions"@) {
        Some(contract("Timeline 包含未声明的上游阶段。"@))
    } else {
        None
    }
}

/// The facts of a reference and of its stored artifact, for the drift check.
pub open spec fn upstream_facts(reference: RenderUpstreamRef, read: UpstreamArtifactRead) -> UpstreamReferenceFacts {
    UpstreamReferenceFacts {
        stage_id: reference.stage_id.unwrap(),
        run_id: reference.run_id,
        content_hash: reference.content_hash.unwrap(),
        owner_project_id: read.owner_project_id,
        artifact_project_id: read.project_id,
        artifact_stage_id: read.stage_id,
        artifact_run_id: read.run_id,
        artifact_content_hash: read.content_hash,
    }
}

/// The refusal of the first reference from `i` on that cannot be used.
pub open spec fn first_reference_refusal(
    project_id: Seq<char>,
    refs: Seq<RenderUpstreamRef>,
    reads: Seq<UpstreamArtifactRead>,
    i: int,
) -> Option<RenderRefusal>
    decreases refs.len() - i,
{
    if i < 0 || i >= refs.len() {
        None
    } else {
        match reference_refusal(project_id, refs[i], reads[i]) {
            Some(refusal) => Some(refusal),
            None => first_reference_refusal(project_id, refs, reads, i + 1),
        }
    }
}

/// Some reference is of the stage.
pub open spec fn has_stage_ref(refs: Seq<RenderUpstreamRef>, stage_id: Seq<char>) -> bool {
    exists|j: int| 0 <= j < refs.len() && opt_view(#[trigger] refs[j].stage_id) == Some(stage_id)
}

/// Why the upstream references cannot be used: the first unusable one, then
/// a missing scene plan, then a missing audio.
pub open spec fn upstream_refusal(project_id: Seq<char>, refs: Seq<RenderUpstreamRef>, reads: Seq<UpstreamArtifactRead>) -> Option<
    RenderRefusal,
> {
    match first_reference_refusal(project_id, refs, reads, 0) {
        Some(refusal) => Some(refusal),
        None => if !has_stage_ref(refs, "scene_plan"@) {
            Some(contract("Timeline 缺少 Scene Plan 引用。"@))
        } else if !has_stage_ref(refs, "audio"@) {
            Some(contract("Timeline 缺少 Audio 引用。"@))
        } else {
            None
        },
    }
}

/// The texts of identifiers.
pub open spec fn id_texts(ids: Seq<String>) -> Seq<Seq<char>> {
    ids.map_values(|id: String| id@)
}

/// The artifact identifiers of the references.
pub open spec fn reference_ids(refs: Seq<RenderUpstreamRef>) -> Seq<Seq<char>> {
    refs.map_values(|reference: RenderUpstreamRef| reference.artifact_id.unwrap()@)
}

/// The first candidate from `i` on whose kind is `audio_source`.
pub open spec fn first_audio_source(candidates: Seq<AudioSourceCandidate>, i: int) -> Option<Seq<char>>
    decreases candidates.len() - i,
{
    if i < 0 || i >= candidates.len() {
        None
    } else if opt_view(candidates[i].kind) == Some("audio_source"@) {
        Some(candidates[i].artifact_id@)
    } else {
        first_audio_source(candidates, i + 1)
    }
}

/// The scene track's length, where the timeline has one.
pub open spec fn track_len(track: Option<Vec<Option<String>>>) -> Option<usize> {
    match track {
        Some(items) => Some(items@.len() as usize),
        None => None,
    }
}

/// The scenes a render target covers, in order.
pub open spec fn target_ids(target: RenderTargetData, track: Option<Vec<Option<String>>>) -> Seq<Seq<char>> {
    match target {
        RenderTargetData::Scene { scene_id } => seq![scene_id@],
        RenderTargetData::Timeline => track.unwrap()@.map_values(|item: Option<String>| item.unwrap()@),
    }
}

/// Why the raw audio or the target cannot be rendered, checked in this order:
/// the raw audio's content, the target's scene count, the scene identifiers.
pub open spec fn raw_audio_refusal(state: PrepareRenderState, verified: bool) -> Option<RenderRefusal> {
    if !verified {
        Some(
            RenderRefusal {
                code: RendererServiceErrorCode::InputHashMismatch,
                message: "The source audio Artifact failed content-hash verification."@,
                artifact_id: Some(state.raw_audio_artifact_id@),
            },
        )
    } else {
        match target_scene_count(state.options.target, track_len(state.scene_track)) {
            None => Some(contract("Timeline is missing sceneTrack."@)),
            Some(count) => if !(1 <= count <= RENDERER_MAX_SCENES && count + RENDER_FIXED_ARTIFACTS
                <= MAX_JOB_ARTIFACTS) {
                Some(
                    plain(
                        RendererServiceErrorCode::ResourceLimitExceeded,
                        "Renderer accepts 1..=254 scenes so the immutable outputs fit the Job/StageRun 256 Artifact limit."@,
                    ),
                )
            } else if state.options.target is Timeline && !(forall|j: int|
                0 <= j < state.scene_track.unwrap()@.len() ==> required_ok(
                    #[trigger] state.scene_track.unwrap()@[j],
                )) {
                Some(contract("缺少字符串字段 sceneId。"@))
            } else {
                None
            },
        }
    }
}

/// Why the preparation stops at this event.
pub open spec fn prepare_step_refusal(state: PrepareRenderState, event: PrepareRenderEvent) -> Option<RenderRefusal> {
    match event {
        PrepareRenderEvent::ProjectOpened { project_id } => if project_id@
            != state.options.expected_project_id@ {
            Some(plain(RendererServiceErrorCode::ProjectIdentityMismatch, "Renderer 请求项目身份不匹配。"@))
        } else {
            None
        },
        PrepareRenderEvent::TimelineApproved => None,
        PrepareRenderEvent::TimelineRead { content_verified, timeline } => timeline_refusal(
            state,
            content_verified,
            timeline,
        ),
        PrepareRenderEvent::UpstreamRead { reads, .. } => upstream_refusal(
            state.options.expected_project_id@,
            state.upstream@,
            reads@,
        ),
        PrepareRenderEvent::AudioSourceResolved { candidates } => if state.audio_sources is None
            || first_audio_source(candidates@, 0) is None {
            Some(contract("Audio 文档未闭合到原始 audio_source Artifact。"@))
        } else {
            None
        },
        PrepareRenderEvent::RawAudioChecked { verified } => raw_audio_refusal(state, verified),
    }
}

/// How an accepted event moves the preparation on.
pub open spec fn prepare_step_taken(
    state: PrepareRenderState,
    event: PrepareRenderEvent,
    next: PrepareRenderState,
    action: PrepareRenderAction,
) -> bool {
    &&& next.operation == state.operation
    &&& next.preview_only == state.preview_only
    &&& next.options.expected_project_id@ == state.options.expected_project_id@
    &&& next.options.run_id@ == state.options.run_id@
    &&& next.options.timeline_input == state.options.timeline_input
    &&& next.options.target == state.options.target
    &&& match event {
        PrepareRenderEvent::ProjectOpened { .. } => {
            &&& next.stage == PrepareRenderStage::AwaitApproval
            &&& action == PrepareRenderAction::ApproveTimeline
            &&& next.options == state.options
        },
        PrepareRenderEvent::TimelineApproved => {
            &&& next.stage == PrepareRenderStage::AwaitTimeline
            &&& action == PrepareRenderAction::ReadTimeline
            &&& next.options == state.options
        },
        PrepareRenderEvent::TimelineRead { timeline, .. } => {
            &&& next.stage == PrepareRenderStage::AwaitUpstream
            &&& action == PrepareRenderAction::ReadUpstream
            &&& timeline_config(state, timeline.canvas->Canvas_0, next.options.config)
            &&& next.upstream@ == timeline.input_refs.unwrap()@
            &&& next.scene_track == timeline.scene_track
            &&& id_texts(next.source_artifact_ids@) == seq![
                state.options.timeline_input.artifact_id@,
            ]
        },
        PrepareRenderEvent::UpstreamRead { audio_sources, .. } => {
            &&& next.stage == PrepareRenderStage::AwaitAudioSource
            &&& action == PrepareRenderAction::ResolveAudioSource
            &&& next.options == state.options
            &&& next.scene_track == state.scene_track
            &&& next.audio_sources == audio_sources
            &&& id_texts(next.source_artifact_ids@) == id_texts(state.source_artifact_ids@) + reference_ids(state.upstream@)
        },
        PrepareRenderEvent::AudioSourceResolved { candidates } => {
            &&& next.stage == PrepareRenderStage::AwaitRawAudio
            &&& action == PrepareRenderAction::CheckRawAudio
            &&& next.options == state.options
            &&& next.scene_track == state.scene_track
            &&& next.source_artifact_ids == state.source_artifact_ids
            &&& Some(next.raw_audio_artifact_id@) == first_audio_source(candidates@, 0)
        },
        PrepareRenderEvent::RawAudioChecked { .. } => {
            &&& next.stage == PrepareRenderStage::Done
            &&& action == PrepareRenderAction::BuildSnapshots
            &&& next.options == state.options
            &&& next.raw_audio_artifact_id@ == state.raw_audio_artifact_id@
            &&& id_texts(next.source_artifact_ids@) == id_texts(state.source_artifact_ids@).push(state.raw_audio_artifact_id@)
            &&& id_texts(next.target_scene_ids@) == target_ids(
                state.options.target,
                state.scene_track,
            )
        },
    }
}

/// Whether a required text field is present, not empty and at most 2048 bytes.
fn required_text(value: &Option<String>) -> (result: bool)
    ensures
        result == required_ok(*value),
{
    match value {
        Some(text) => {
            let n = text.as_str().as_bytes().len();
            0 < n && n <= 2048
        },
        None => false,
    }
}

fn error_for(code: RendererServiceErrorCode, operation: RendererOperation, message: &str, artifact_id: &str) -> (error:
    RendererServiceError)
    ensures
        error.code == code,
        error.operation == operation,
        error.message@ == message@,
        !error.retryable,
        opt_view(error.artifact_id) == Some(artifact_id@),
{
    RendererServiceError::new(code, operation, message).for_artifact(artifact_id)
}

fn text_of(value: &Option<String>) -> (text: String)
    requires
        value is Some,
    ensures
        text@ == value.unwrap()@,
{
    match value {
        Some(t) => t.clone(),
        None => String::new(),
    }
}

fn opt_is(value: &Option<String>, expected: &str) -> (result: bool)
    ensures
        result == (opt_view(*value) == Some(expected@)),
{
    match value {
        Some(t) => same_text(t.as_str(), expected),
        None => false,
    }
}

/// Checks one upstream reference against what the storage reported of it.
fn check_reference(
    project_id: &str,
    reference: &RenderUpstreamRef,
    read: &UpstreamArtifactRead,
    operation: RendererOperation,
) -> (result: Result<(), RendererServiceError>)
    ensures
        match reference_refusal(project_id@, *reference, *read) {
            Some(refusal) => result matches Err(error) && refused_as(error, refusal, operation),
            None => result is Ok,
        },
{
    if !required_text(&reference.artifact_id) {
        return Err(RendererServiceError::new(RendererServiceErrorCode::ContractViolation, operation, "缺少字符串字段 artifactId。"));
    }
    if !required_text(&reference.stage_id) {
        return Err(RendererServiceError::new(RendererServiceErrorCode::ContractViolation, operation, "缺少字符串字段 stageId。"));
    }
    if !required_text(&reference.content_hash) {
        return Err(RendererServiceError::new(RendererServiceErrorCode::ContractViolation, operation, "缺少字符串字段 contentHash。"));
    }
    let artifact_id = text_of(&reference.artifact_id);
    let stage_id = text_of(&reference.stage_id);
    let facts = UpstreamReferenceFacts {
        stage_id: stage_id.clone(),
        run_id: reference.run_id.clone(),
        content_hash: text_of(&reference.content_hash),
        owner_project_id: read.owner_project_id.clone(),
        artifact_project_id: read.project_id.clone(),
        artifact_stage_id: read.stage_id.clone(),
        artifact_run_id: read.run_id.clone(),
        artifact_content_hash: read.content_hash.clone(),
    };
    assert(opt_view(facts.run_id) == opt_view(reference.run_id));
    assert(upstream_unchanged(facts, project_id@) == upstream_unchanged(upstream_facts(*reference, *read), project_id@));
    if check_upstream_reference(&facts, artifact_id.as_str(), project_id, operation).is_err() {
        return Err(
            error_for(
                RendererServiceErrorCode::InputHashMismatch,
                operation,
                "Timeline 的上游引用发生身份或哈希漂移。",
                artifact_id.as_str(),
            ),
        );
    }
    if !read.content_verified {
        return Err(
            error_for(
                RendererServiceErrorCode::InputHashMismatch,
                operation,
                "Artifact 内容哈希或字节数复验失败。",
                artifact_id.as_str(),
            ),
        );
    }
    let stage = stage_id.as_str();
    if !(same_text(stage, "scene_plan") || same_text(stage, "audio") || same_text(stage, "captions")) {
        return Err(RendererServiceError::new(RendererServiceErrorCode::ContractViolation, operation, "Timeline 包含未声明的上游阶段。"));
    }
    Ok(())
}

/// Whether some reference is of the stage.
fn has_stage(refs: &Vec<RenderUpstreamRef>, stage_id: &str) -> (result: bool)
    ensures
        result == has_stage_ref(refs@, stage_id@),
{
    let mut j: usize = 0;
    while j < refs.len()
        invariant
            0 <= j <= refs@.len(),
            forall|q: int| 0 <= q < j ==> opt_view(#[trigger] refs@[q].stage_id) != Some(stage_id@),
        decreases refs@.len() - j,
    {
        if opt_is(&refs[j].stage_id, stage_id) {
            return true;
        }
        j = j + 1;
    }
    false
}

/// Checks every upstream reference in order, then that a scene plan and an
/// audio are among them; gives the references' artifact identifiers.
fn check_upstream(
    project_id: &str,
    refs: &Vec<RenderUpstreamRef>,
    reads: &Vec<UpstreamArtifactRead>,
    operation: RendererOperation,
) -> (result: Result<Vec<String>, RendererServiceError>)
    requires
        reads@.len() == refs@.len(),
    ensures
        match upstream_refusal(project_id@, refs@, reads@) {
            Some(refusal) => result matches Err(error) && refused_as(error, refusal, operation),
            None => result matches Ok(ids) && id_texts(ids@) == reference_ids(refs@),
        },
{
    let mut ids: Vec<String> = Vec::new();
    let mut i: usize = 0;
    while i < refs.len()
        invariant
            0 <= i <= refs@.len(),
            reads@.len() == refs@.len(),
            first_reference_refusal(project_id@, refs@, reads@, 0) == first_reference_refusal(
                project_id@,
                refs@,
                reads@,
                i as int,
            ),
            ids@.len() == i,
            forall|q: int| 0 <= q < i ==> (#[trigger] ids@[q])@ == refs@[q].artifact_id.unwrap()@,
        decreases refs@.len() - i,
    {
        check_reference(project_id, &refs[i], &reads[i], operation)?;
        ids.push(text_of(&refs[i].artifact_id));
        i = i + 1;
    }
    assert(id_texts(ids@) =~= reference_ids(refs@));
    if !has_stage(refs, "scene_plan") {
        return Err(RendererServiceError::new(RendererServiceErrorCode::ContractViolation, operation, "Timeline 缺少 Scene Plan 引用。"));
    }
    if !has_stage(refs, "audio") {
        return Err(RendererServiceError::new(RendererServiceErrorCode::ContractViolation, operation, "Timeline 缺少 Audio 引用。"));
    }
    Ok(ids)
}

/// The first candidate whose kind is `audio_source`.
fn pick_audio_source(candidates: &Vec<AudioSourceCandidate>) -> (result: Option<String>)
    ensures
        opt_view(result) == first_audio_source(candidates@, 0),
{
    let mut i: usize = 0;
    while i < candidates.len()
        invariant
            0 <= i <= candidates@.len(),
            first_audio_source(candidates@, 0) == first_audio_source(candidates@, i as int),
        decreases candidates@.len() - i,
    {
        if opt_is(&candidates[i].kind, "audio_source") {
            return Some(candidates[i].artifact_id.clone());
        }
        i = i + 1;
    }
    None
}

/// Checks the timeline document (see [`timeline_refusal`]) and gives the
/// configuration the render uses.
fn check_timeline(state: &PrepareRenderState, content_verified: bool, timeline: &RenderTimelineFields) -> (result:
    Result<Option<RenderConfigData>, RendererServiceError>)
    ensures
        match timeline_refusal(*state, content_verified, *timeline) {
            Some(refusal) => result matches Err(error) && refused_as(error, refusal, state.operation),
            None => result matches Ok(config) && if state.preview_only {
                config matches Some(c) && timeline_config(*state, timeline.canvas->Canvas_0, c)
            } else {
                config is None
            },
        },
{
    let operation = state.operation;
    let options = &state.options;
    if !content_verified {
        return Err(
            error_for(
                RendererServiceErrorCode::InputHashMismatch,
                operation,
                "Artifact 内容哈希或字节数复验失败。",
                options.timeline_input.artifact_id.as_str(),
            ),
        );
    }
    if !(opt_is(&timeline.document_type, "timeline") && opt_is(
        &timeline.project_id,
        options.expected_project_id.as_str(),
    ) && opt_is(&timeline.run_id, options.timeline_input.run_id.as_str())) {
        return Err(RendererServiceError::new(RendererServiceErrorCode::CrossProjectReference, operation, "Timeline 文档身份与冻结引用不一致。"));
    }
    let duration_ms = match timeline.duration_ms {
        Some(d) => d,
        None => {
            return Err(RendererServiceError::new(RendererServiceErrorCode::ContractViolation, operation, "缺少整数宇段 durationMs。"));
        },
    };
    let canvas = match &timeline.canvas {
        SnapshotCanvasField::Missing => {
            return Err(RendererServiceError::new(RendererServiceErrorCode::ContractViolation, operation, "Timeline 缺少 canvas。"));
        },
        SnapshotCanvasField::Invalid => None,
        SnapshotCanvasField::Canvas(c) => Some(*c),
    };
    let config = if state.preview_only {
        match canvas {
            Some(c) => Some(render_config_from_timeline(c)),
            None => {
                return Err(RendererServiceError::new(RendererServiceErrorCode::ContractViolation, operation, "Timeline canvas 无效。"));
            },
        }
    } else {
        if validate_request_shape(
            options.timeline_input.stage_id.as_str(),
            options.run_id.as_str(),
            options.idempotency_key.as_str(),
            &options.config,
            operation,
        ).is_err() {
            return Err(RendererServiceError::new(RendererServiceErrorCode::InvalidRequest, operation, "Renderer 请求包含未授权配置或无效身份。"));
        }
        if check_render_matches_timeline(&options.config, canvas, duration_ms, operation).is_err() {
            return Err(
                RendererServiceError::new(
                    RendererServiceErrorCode::InvalidRequest,
                    operation,
                    "渲染画布/帧率必须与冻结 Timeline 完全一致，且时长不能超过配置上限。",
                ),
            );
        }
        None
    };
    if timeline.input_refs.is_none() {
        return Err(RendererServiceError::new(RendererServiceErrorCode::ContractViolation, operation, "Timeline 缺少 inputRefs。"));
    }
    Ok(config)
}

/// The scenes the target covers, once the scene track's identifiers are
/// required texts.
fn scene_ids(target: &RenderTargetData, track: &Option<Vec<Option<String>>>, operation: RendererOperation) -> (result:
    Result<Vec<String>, RendererServiceError>)
    requires
        target is Timeline ==> track is Some,
    ensures
        if target is Timeline && !(forall|j: int|
            0 <= j < track.unwrap()@.len() ==> required_ok(#[trigger] track.unwrap()@[j])) {
            result matches Err(error) && refused_as(error, contract("缺少字符串字段 sceneId。"@), operation)
        } else {
            result matches Ok(ids) && id_texts(ids@) == target_ids(*target, *track)
        },
{
    match target {
        RenderTargetData::Scene { scene_id } => {
            let mut ids: Vec<String> = Vec::new();
            ids.push(scene_id.clone());
            assert(id_texts(ids@) =~= target_ids(*target, *track));
            Ok(ids)
        },
        RenderTargetData::Timeline => {
            let items = match track {
                Some(items) => items,
                None => {
                    return Err(RendererServiceError::new(RendererServiceErrorCode::ContractViolation, operation, "缺少字符串字段 sceneId。"));
                },
            };
            let mut ids: Vec<String> = Vec::new();
            let mut i: usize = 0;
            while i < items.len()
                invariant
                    0 <= i <= items@.len(),
                    target is Timeline,
                    track is Some,
                    track.unwrap()@ == items@,
                    ids@.len() == i,
                    forall|q: int| 0 <= q < i ==> required_ok(#[trigger] items@[q]),
                    forall|q: int| 0 <= q < i ==> (#[trigger] ids@[q])@ == items@[q].unwrap()@,
                decreases items@.len() - i,
            {
                if !required_text(&items[i]) {
                    assert(!required_ok(track.unwrap()@[i as int]));
                    return Err(RendererServiceError::new(RendererServiceErrorCode::ContractViolation, operation, "缺少字符串字段 sceneId。"));
                }
                ids.push(text_of(&items[i]));
                i = i + 1;
            }
            assert(id_texts(ids@) =~= target_ids(*target, *track));
            Ok(ids)
        },
    }
}

/// Takes the report of the outside work the preparation waited for and
/// decides: it stops with an error (see [`prepare_step_refusal`]) or moves on
/// (see [`prepare_step_taken`]). When it is done, the state holds the
/// configuration, the source artifacts, the raw audio and the target scenes.
#[verifier::rlimit(60)]
pub fn prepare_render_step(state: PrepareRenderState, event: PrepareRenderEvent) -> (result: Result<
    (PrepareRenderState, PrepareRenderAction),
    RendererServiceError,
>)
    requires
        prepare_awaited(state, event),
    ensures
        match prepare_step_refusal(state, event) {
            Some(refusal) => result matches Err(error) && refused_as(error, refusal, state.operation),
            None => result matches Ok((next, action)) && prepare_step_taken(state, event, next, action),
        },
{
    let operation = state.operation;
    let mut next = state;
    match event {
        PrepareRenderEvent::ProjectOpened { project_id } => {
            if !same_text(project_id.as_str(), next.options.expected_project_id.as_str()) {
                return Err(RendererServiceError::new(RendererServiceErrorCode::ProjectIdentityMismatch, operation, "Renderer 请求项目身份不匹配。"));
            }
            next.stage = PrepareRenderStage::AwaitApproval;
            Ok((next, PrepareRenderAction::ApproveTimeline))
        },
        PrepareRenderEvent::TimelineApproved => {
            next.stage = PrepareRenderStage::AwaitTimeline;
            Ok((next, PrepareRenderAction::ReadTimeline))
        },
        PrepareRenderEvent::TimelineRead { content_verified, timeline } => {
            let config = check_timeline(&next, content_verified, &timeline);
            let config = match config {
                Ok(c) => c,
                Err(error) => {
                    return Err(error);
                },
            };
            match config {
                Some(c) => {
                    next.options.config = c;
                },
                None => {},
            }
            next.upstream = match timeline.input_refs {
                Some(refs) => refs,
                None => Vec::new(),
            };
            next.scene_track = timeline.scene_track;
            let mut ids: Vec<String> = Vec::new();
            ids.push(next.options.timeline_input.artifact_id.clone());
            assert(id_texts(ids@) =~= seq![next.options.timeline_input.artifact_id@]);
            next.source_artifact_ids = ids;
            next.stage = PrepareRenderStage::AwaitUpstream;
            Ok((next, PrepareRenderAction::ReadUpstream))
        },
        PrepareRenderEvent::UpstreamRead { reads, audio_sources } => {
            let ids = check_upstream(next.options.expected_project_id.as_str(), &next.upstream, &reads, operation)?;
            let ghost before = next.source_artifact_ids@;
            let mut all = next.source_artifact_ids.clone();
            let mut k: usize = 0;
            while k < ids.len()
                invariant
                    0 <= k <= ids@.len(),
                    all@.len() == before.len() + k,
                    forall|q: int| 0 <= q < before.len() ==> (#[trigger] all@[q])@ == before[q]@,
                    forall|q: int| 0 <= q < k ==> (#[trigger] all@[before.len() + q])@ == ids@[q]@,
                decreases ids@.len() - k,
            {
                all.push(ids[k].clone());
                k = k + 1;
            }
            assert forall|q: int| 0 <= q < all@.len() implies #[trigger] id_texts(all@)[q]
                == (id_texts(before) + id_texts(ids@))[q] by {
                if q >= before.len() {
                    let r = q - before.len();
                    assert(all@[before.len() + r]@ == ids@[r]@);
                }
            }
            assert(id_texts(all@) =~= id_texts(before) + id_texts(ids@));
            next.source_artifact_ids = all;
            next.audio_sources = audio_sources;
            next.stage = PrepareRenderStage::AwaitAudioSource;
            Ok((next, PrepareRenderAction::ResolveAudioSource))
        },
        PrepareRenderEvent::AudioSourceResolved { candidates } => {
            let picked = pick_audio_source(&candidates);
            if next.audio_sources.is_none() || picked.is_none() {
                return Err(RendererServiceError::new(RendererServiceErrorCode::ContractViolation, operation, "Audio 文档未闭合到原始 audio_source Artifact。"));
            }
            next.raw_audio_artifact_id = match picked {
                Some(id) => id,
                None => String::new(),
            };
            next.stage = PrepareRenderStage::AwaitRawAudio;
            Ok((next, PrepareRenderAction::CheckRawAudio))
        },
        PrepareRenderEvent::RawAudioChecked { verified } => {
            if !verified {
                return Err(
                    error_for(
                        RendererServiceErrorCode::InputHashMismatch,
                        operation,
                        "The source audio Artifact failed content-hash verification.",
                        next.raw_audio_artifact_id.as_str(),
                    ),
                );
            }
            let count = match &next.scene_track {
                Some(items) => Some(items.len()),
                None => None,
            };
            if validate_target_scene_capacity(&next.options.target, count, operation).is_err() {
                let is_timeline = match &next.options.target {
                    RenderTargetData::Timeline => true,
                    RenderTargetData::Scene { .. } => false,
                };
                if count.is_none() && is_timeline {
                    return Err(RendererServiceError::new(RendererServiceErrorCode::ContractViolation, operation, "Timeline is missing sceneTrack."));
                }
                return Err(
                    RendererServiceError::new(
                        RendererServiceErrorCode::ResourceLimitExceeded,
                        operation,
                        "Renderer accepts 1..=254 scenes so the immutable outputs fit the Job/StageRun 256 Artifact limit.",
                    ),
                );
            }
            let targets = scene_ids(&next.options.target, &next.scene_track, operation)?;
            let ghost before = next.source_artifact_ids@;
            next.source_artifact_ids.push(next.raw_audio_artifact_id.clone());
            assert(id_texts(next.source_artifact_ids@) =~= id_texts(before).push(next.raw_audio_artifact_id@));
            next.target_scene_ids = targets;
            next.stage = PrepareRenderStage::Done;
            Ok((next, PrepareRenderAction::BuildSnapshots))
        },
    }
}

/// Starts preparing a render of `options`: a scene preview (`preview_only`)
/// or a render; the first work is opening the project.
pub fn start_prepare_render(options: EnqueueRenderOptions, preview_only: bool) -> (result: (
    PrepareRenderState,
    PrepareRenderAction,
))
    ensures
        result.0.stage == PrepareRenderStage::AwaitProject,
        result.1 == PrepareRenderAction::OpenProject,
        result.0.operation == (if preview_only {
            RendererOperation::CreateSceneSnapshot
        } else {
            RendererOperation::ExecuteRender
        }),
        result.0.preview_only == preview_only,
        result.0.options == options,
        result.0.upstream@.len() == 0,
        result.0.source_artifact_ids@.len() == 0,
{
    let operation = if preview_only {
        RendererOperation::CreateSceneSnapshot
    } else {
        RendererOperation::ExecuteRender
    };
    (
        PrepareRenderState {
            stage: PrepareRenderStage::AwaitProject,
            operation,
            preview_only,
            options,
            upstream: Vec::new(),
            scene_track: None,
            source_artifact_ids: Vec::new(),
            audio_sources: None,
            raw_audio_artifact_id: String::new(),
            target_scene_ids: Vec::new(),
        },
        PrepareRenderAction::OpenProject,
    )
}

} // verus!
