use vstd::prelude::*;

verus! {

/// One authorization record that grants the use of a media source.
#[derive(Debug, Clone, PartialEq, Eq)]
pub struct AuthorizationRecordInputData {
    pub authorization_record_id: String,
    pub authorization_type: String,
    pub grantor: String,
    pub scope: String,
    pub evidence_ref: String,
    pub recorded_at: String,
}

/// Whether a voice-clone authorization applies to a source, and why.
#[derive(Debug, Clone, PartialEq, Eq)]
pub struct VoiceAuthorizationApplicabilityData {
    pub applicability: String,
    pub reason: String,
}

/// The rights under which a media source is used.
#[derive(Debug, Clone, PartialEq, Eq)]
pub struct MediaRightsData {
    pub ownership: String,
    pub author: String,
    pub rights_statement: String,
    pub license_id: String,
    pub attribution_text: String,
    pub authorization_records: Vec<AuthorizationRecordInputData>,
    pub voice_authorization: VoiceAuthorizationApplicabilityData,
}

/// A frozen reference to an approved artifact that a media step consumes.
#[derive(Debug, Clone, PartialEq, Eq)]
pub struct FrozenArtifactInputData {
    pub stage_id: String,
    pub run_id: String,
    pub artifact_id: String,
    pub content_hash: String,
    pub review_record_id: String,
    pub claim_ids: Vec<String>,
    pub evidence_refs: Vec<String>,
}

/// A request to generate a scene plan from approved research, script and captions.
#[derive(Debug, Clone, PartialEq, Eq)]
pub struct GenerateScenePlanOptions {
    pub project_path: String,
    pub expected_project_id: String,
    pub run_id: String,
    pub research_input: FrozenArtifactInputData,
    pub script_input: FrozenArtifactInputData,
    pub captions_input: FrozenArtifactInputData,
    pub idempotency_key: String,
}

/// A request to generate a timeline from approved audio, captions and scene plan.
#[derive(Debug, Clone, PartialEq, Eq)]
pub struct GenerateTimelineOptions {
    pub project_path: String,
    pub expected_project_id: String,
    pub run_id: String,
    pub audio_input: FrozenArtifactInputData,
    pub captions_input: FrozenArtifactInputData,
    pub scene_plan_input: FrozenArtifactInputData,
    pub canvas: TimelineCanvasData,
    pub safe_area: TimelineSafeAreaData,
    pub idempotency_key: String,
}

/// A request to save edits to a scene plan.
#[derive(Debug, Clone, PartialEq, Eq)]
pub struct SaveScenePlanOptions {
    pub project_path: String,
    pub expected_project_id: String,
    pub run_id: String,
    pub base_artifact_id: String,
    pub edits: Vec<ScenePlanEditData>,
    pub change_summary: String,
    pub idempotency_key: String,
}

/// A request to save edits to a timeline.
#[derive(Debug, Clone, PartialEq, Eq)]
pub struct SaveTimelineOptions {
    pub project_path: String,
    pub expected_project_id: String,
    pub run_id: String,
    pub base_artifact_id: String,
    pub edits: Vec<TimelineEditData>,
    pub change_summary: String,
    pub idempotency_key: String,
}

/// A request to read one media document.
#[derive(Debug, Clone, PartialEq, Eq)]
pub struct GetMediaDocumentOptions {
    pub project_path: String,
    pub expected_project_id: String,
    pub artifact_id: String,
}

/// A request to record new rights for an imported media artifact.
#[derive(Debug, Clone, PartialEq, Eq)]
pub struct ReauthorizeMediaOptions {
    pub project_path: String,
    pub expected_project_id: String,
    pub run_id: String,
    pub base_artifact_id: String,
    pub rights: MediaRightsData,
    pub idempotency_key: String,
}

/// What a media save reports back.
#[derive(Debug, Clone, PartialEq, Eq)]
pub struct MediaSaveResultData {
    pub api_version: String,
    pub operation: String,
    pub owner_project_id: String,
    pub run_id: String,
    pub artifact_id: String,
    pub changed_scene_ids: Vec<String>,
    pub stale_because_stage_ids: Vec<String>,
    pub idempotent_replay: bool,
}

/// One edit of a scene plan.
#[derive(Debug, Clone, PartialEq, Eq)]
pub enum ScenePlanEditData {
    Split { scene_id: String, boundary_cue_id: String },
    Merge { first_scene_id: String, second_scene_id: String },
    Update { scene_id: String, title: Option<String>, narrative_role: Option<String> },
    MoveBoundary { left_scene_id: String, right_scene_id: String, boundary_cue_id: String },
}

/// The pixel size and rational frame rate of a timeline.
#[derive(Debug, Clone, Copy, PartialEq, Eq, Structural)]
pub struct TimelineCanvasData {
    pub width: u32,
    pub height: u32,
    pub frame_rate_numerator: u32,
    pub frame_rate_denominator: u32,
}

/// The rectangle of a canvas that captions and overlays keep inside.
#[derive(Debug, Clone, Copy, PartialEq, Eq, Structural)]
pub struct TimelineSafeAreaData {
    pub x: u32,
    pub y: u32,
    pub width: u32,
    pub height: u32,
}

/// One edit of a timeline.
#[derive(Debug, Clone, PartialEq, Eq)]
pub enum TimelineEditData {
    MoveSceneBoundary { left_scene_id: String, right_scene_id: String, boundary_ms: u64 },
    SetSafeArea { safe_area: TimelineSafeAreaData },
    SetCaptionVisibility { visible: bool },
}

/// The clock of the running system.
#[derive(Debug, Default)]
pub struct SystemMediaClock;

} // verus!
