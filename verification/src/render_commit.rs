use vstd::prelude::*;

use crate::renderer_error::{RendererOperation, RendererServiceError, RendererServiceErrorCode};
use crate::renderer_rules::{render_artifact_id_spec, stable_render_artifact_id};
use crate::renderer_types::RenderTargetData;
use crate::storage_error::opt_view;
use crate::text::same_text;

verus! {

/// One artifact a render commits: its identifier and kind, fixed before any
/// file is written.
#[derive(Debug, Clone, PartialEq, Eq)]
pub struct ArtifactCommitPlanEntryData {
    pub artifact_id: String,
    pub kind: String,
}

/// The kind of a render's video: a rendered scene or the whole video.
pub open spec fn video_kind_spec(target: RenderTargetData) -> Seq<char> {
    match target {
        RenderTargetData::Scene { .. } => "rendered_scene"@,
        RenderTargetData::Timeline => "rendered_video"@,
    }
}

/// The commit plan of a render, as identifiers and kinds: a snapshot of each
/// scene in order, then the video, then the render log, each identified by
/// the job and its role.
pub open spec fn commit_plan_spec(job_id: Seq<char>, scene_ids: Seq<Seq<char>>, target: RenderTargetData) -> Seq<
    (Seq<char>, Seq<char>),
> {
    Seq::new(
        scene_ids.len(),
        |i: int| (render_artifact_id_spec(job_id, "snapshot:"@ + scene_ids[i]), "scene_snapshot"@),
    ).push((render_artifact_id_spec(job_id, "video"@), video_kind_spec(target))).push(
        (render_artifact_id_spec(job_id, "render_log"@), "render_log"@),
    )
}

/// The identifiers and kinds of a plan.
pub open spec fn plan_view(plan: Seq<ArtifactCommitPlanEntryData>) -> Seq<(Seq<char>, Seq<char>)> {
    plan.map_values(|entry: ArtifactCommitPlanEntryData| (entry.artifact_id@, entry.kind@))
}

/// Plans the artifacts of a render commit, once the job is confirmed to be
/// the render's: its stage run is the frozen run. `job_stage_run_id` is the
/// job's stage run where it is a string.
pub fn render_commit_plan(
    job_id: &str,
    job_stage_run_id: &Option<String>,
    run_id: &str,
    scene_ids: &Vec<String>,
    target: &RenderTargetData,
    operation: RendererOperation,
) -> (result: Result<Vec<ArtifactCommitPlanEntryData>, RendererServiceError>)
    ensures
        result is Ok <==> opt_view(*job_stage_run_id) == Some(run_id@),
        result matches Ok(plan) ==> plan_view(plan@) == commit_plan_spec(
            job_id@,
            scene_ids@.map_values(|s: String| s@),
            *target,
        ),
        result matches Err(error) ==> error.code == RendererServiceErrorCode::JobConflict
            && error.operation == operation && error.message@
            == "Render commit 的 Job 与冻结 runId 不一致。"@ && !error.retryable,
{
    let same_run = match job_stage_run_id {
        Some(stage_run) => same_text(stage_run.as_str(), run_id),
        None => false,
    };
    if !same_run {
        return Err(
            RendererServiceError::new(
                RendererServiceErrorCode::JobConflict,
                operation,
                "Render commit 的 Job 与冻结 runId 不一致。",
            ),
        );
    }
    let ghost ids = scene_ids@.map_values(|s: String| s@);
    let mut plan: Vec<ArtifactCommitPlanEntryData> = Vec::new();
    let mut i: usize = 0;
    while i < scene_ids.len()
        invariant
            0 <= i <= scene_ids@.len(),
            ids == scene_ids@.map_values(|s: String| s@),
            plan_view(plan@) == Seq::new(
                i as nat,
                |k: int| (render_artifact_id_spec(job_id@, "snapshot:"@ + ids[k]), "scene_snapshot"@),
            ),
        decreases scene_ids@.len() - i,
    {
        let mut role = String::from_str("snapshot:");
        role.append(scene_ids[i].as_str());
        let entry = ArtifactCommitPlanEntryData {
            artifact_id: stable_render_artifact_id(job_id, role.as_str()),
            kind: "scene_snapshot".to_owned(),
        };
        assert(ids[i as int] == scene_ids@[i as int]@);
        assert(role@ == "snapshot:"@ + ids[i as int]);
        let ghost before = plan@;
        let ghost pushed = entry;
        plan.push(entry);
        proof {
            assert(plan_view(before).len() == before.len());
            assert(plan@ == before.push(pushed));
            let target_seq = Seq::new(
                (i + 1) as nat,
                |k: int| (render_artifact_id_spec(job_id@, "snapshot:"@ + ids[k]), "scene_snapshot"@),
            );
            assert(plan_view(before) == Seq::new(
                i as nat,
                |k: int| (render_artifact_id_spec(job_id@, "snapshot:"@ + ids[k]), "scene_snapshot"@),
            ));
            assert forall|k: int| 0 <= k < i + 1 implies plan_view(plan@)[k] == target_seq[k] by {
                if k < i {
                    assert(plan@[k] == before[k]);
                    assert(plan_view(before)[k] == target_seq[k]);
                } else {
                    assert(plan@[k] == pushed);
                }
            }
            assert(plan_view(plan@) =~= target_seq);
        }
        i = i + 1;
    }
    let video_kind = match target {
        RenderTargetData::Scene { .. } => "rendered_scene",
        RenderTargetData::Timeline => "rendered_video",
    };
    plan.push(
        ArtifactCommitPlanEntryData {
            artifact_id: stable_render_artifact_id(job_id, "video"),
            kind: video_kind.to_owned(),
        },
    );
    plan.push(
        ArtifactCommitPlanEntryData {
            artifact_id: stable_render_artifact_id(job_id, "render_log"),
            kind: "render_log".to_owned(),
        },
    );
    assert(plan_view(plan@) =~= commit_plan_spec(job_id@, ids, *target));
    Ok(plan)
}

} // verus!
