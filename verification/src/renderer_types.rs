use vstd::prelude::*;

verus! {

/// The approved timeline artifact that a render consumes.
#[derive(Debug, Clone, PartialEq, Eq)]
pub struct RendererTimelineInputData {
    pub stage_id: String,
    pub run_id: String,
    pub artifact_id: String,
    pub content_hash: String,
    pub review_record_id: String,
    pub claim_ids: Vec<String>,
    pub evidence_refs: Vec<String>,
}

/// What a render produces: one scene or the whole timeline.
#[derive(Debug, Clone, PartialEq, Eq)]
pub enum RenderTargetData {
    Scene { scene_id: String },
    Timeline,
}

/// A request to snapshot one scene of an approved timeline.
#[derive(Debug, Clone, PartialEq, Eq)]
pub struct CreateSceneSnapshotOptions {
    pub project_path: String,
    pub expected_project_id: String,
    pub timeline_input: RendererTimelineInputData,
    pub scene_id: String,
}

/// What accepting a render request reports.
#[derive(Debug, Clone, PartialEq, Eq)]
pub struct RenderEnqueueResultData {
    pub api_version: String,
    pub operation: String,
    pub owner_project_id: String,
    pub run_id: String,
    pub job_id: String,
    pub idempotent_replay: bool,
}

} // verus!
