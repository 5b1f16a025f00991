use vstd::prelude::*;

use crate::render_commit::{commit_plan_spec, plan_view, render_commit_plan, ArtifactCommitPlanEntryData};
use crate::render_prepare::{id_texts, required_ok};
use crate::renderer_error::{RendererOperation, RendererServiceError, RendererServiceErrorCode};
use crate::renderer_types::RenderTargetData;
use crate::storage_error::opt_view;

verus! {

/// Where a render commit stands: the outside work it waits for.
#[derive(Debug, Clone, Copy, PartialEq, Eq, Structural)]
pub enum CommitRenderStage {
    AwaitJob,
    AwaitJournal,
    AwaitImport,
    Done,
}

/// The outside work a render commit asks for next.
#[derive(Debug, Clone, Copy, PartialEq, Eq, Structural)]
pub enum CommitRenderAction {
    /// Load the render's job.
    LoadJob,
    /// Begin the commit journal with the state's plan, dated by the job.
    BeginJournal,
    /// Import the snapshot of the scene at this position under its planned
    /// identifier.
    ImportSnapshot { index: usize },
    /// Import the rendered video under its planned identifier.
    ImportVideo,
    /// Build, check and import the render result under its planned identifier.
    ImportLog,
    /// The commit is complete: report the imported artifacts.
    Finish,
}

/// What the outside work of a render commit reported.
#[derive(Debug, Clone, PartialEq, Eq)]
pub enum CommitRenderEvent {
    /// The job's stage run, where it is a text.
    JobLoaded { stage_run_id: Option<String> },
    JournalBegun,
    /// The imported artifact's identifier, where its record gives it as a text.
    ArtifactImported { artifact_id: Option<String> },
}

/// A render commit in progress.
#[derive(Debug, Clone, PartialEq, Eq)]
pub struct CommitRenderState {
    pub stage: CommitRenderStage,
    pub job_id: String,
    pub run_id: String,
    pub scene_ids: Vec<String>,
    pub target: RenderTargetData,
    pub plan: Vec<ArtifactCommitPlanEntryData>,
    /// The artifacts imported so far, in order: the snapshots, the video, the
    /// render result.
    pub artifact_ids: Vec<String>,
    pub video_artifact_id: String,
    pub result_artifact_id: String,
}

/// The import that follows `done` imports of a render with `scenes` scenes:
/// the snapshots in order, then the video, then the result.
pub open spec fn import_after(done: int, scenes: int) -> CommitRenderAction {
    if done < scenes {
        CommitRenderAction::ImportSnapshot { index: done as usize }
    } else if done == scenes {
        CommitRenderAction::ImportVideo
    } else if done == scenes + 1 {
        CommitRenderAction::ImportLog
    } else {
        CommitRenderAction::Finish
    }
}

/// The event is the report of the work the stage waits for; an import comes
/// only while one is planned.
pub open spec fn commit_awaited(state: CommitRenderState, event: CommitRenderEvent) -> bool {
    match (state.stage, event) {
        (CommitRenderStage::AwaitJob, CommitRenderEvent::JobLoaded { .. }) => true,
        (CommitRenderStage::AwaitJournal, CommitRenderEvent::JournalBegun) => true,
        (CommitRenderStage::AwaitImport, CommitRenderEvent::ArtifactImported { .. }) => state.artifact_ids@.len()
            < state.scene_ids@.len() + 2,
        _ => false,
    }
}

/// Why the commit stops at this event, with the error's code and message.
pub open spec fn commit_step_refusal(state: CommitRenderState, event: CommitRenderEvent) -> Option<
    (RendererServiceErrorCode, Seq<char>),
> {
    match event {
        CommitRenderEvent::JobLoaded { stage_run_id } => if opt_view(stage_run_id) != Some(state.run_id@) {
            Some((RendererServiceErrorCode::JobConflict, "Render commit 的 Job 与冻结 runId 不一致。"@))
        } else {
            None
        },
        CommitRenderEvent::JournalBegun => None,
        CommitRenderEvent::ArtifactImported { artifact_id } => if !required_ok(artifact_id) {
            Some((RendererServiceErrorCode::ContractViolation, "缺少字符串字段 artifactId。"@))
        } else {
            None
        },
    }
}

/// How an accepted event moves the commit on.
pub open spec fn commit_step_taken(
    state: CommitRenderState,
    event: CommitRenderEvent,
    next: CommitRenderState,
    action: CommitRenderAction,
) -> bool {
    &&& next.job_id@ == state.job_id@
    &&& next.run_id@ == state.run_id@
    &&& id_texts(next.scene_ids@) == id_texts(state.scene_ids@)
    &&& next.target == state.target
    &&& match event {
        CommitRenderEvent::JobLoaded { .. } => {
            &&& next.stage == CommitRenderStage::AwaitJournal
            &&& action == CommitRenderAction::BeginJournal
            &&& plan_view(next.plan@) == commit_plan_spec(state.job_id@, id_texts(state.scene_ids@), state.target)
            &&& next.artifact_ids@.len() == 0
        },
        CommitRenderEvent::JournalBegun => {
            &&& next.stage == CommitRenderStage::AwaitImport
            &&& action == import_after(0, state.scene_ids@.len() as int)
            &&& plan_view(next.plan@) == plan_view(state.plan@)
            &&& id_texts(next.artifact_ids@) == id_texts(state.artifact_ids@)
        },
        CommitRenderEvent::ArtifactImported { artifact_id } => {
            let n = state.scene_ids@.len() as int;
            let ids = id_texts(next.artifact_ids@);
            &&& ids == id_texts(state.artifact_ids@).push(artifact_id.unwrap()@)
            &&& plan_view(next.plan@) == plan_view(state.plan@)
            &&& action == import_after(ids.len() as int, n)
            &&& if action == CommitRenderAction::Finish {
                &&& next.stage == CommitRenderStage::Done
                &&& next.video_artifact_id@ == ids[n]
                &&& next.result_artifact_id@ == ids[n + 1]
            } else {
                next.stage == CommitRenderStage::AwaitImport
            }
        },
    }
}

/// A commit that finishes has imported one artifact per snapshotted scene,
/// then the video, then the render result, and no more.
pub proof fn lemma_finished_commit_imported_all(
    state: CommitRenderState,
    event: CommitRenderEvent,
    next: CommitRenderState,
    action: CommitRenderAction,
)
    requires
        commit_awaited(state, event),
        commit_step_taken(state, event, next, action),
        action == CommitRenderAction::Finish,
    ensures
        next.stage == CommitRenderStage::Done,
        next.artifact_ids@.len() == next.scene_ids@.len() + 2,
        next.video_artifact_id@ == next.artifact_ids@[next.scene_ids@.len() as int]@,
        next.result_artifact_id@ == next.artifact_ids@[next.scene_ids@.len() + 1int]@,
{
    assert(id_texts(next.scene_ids@).len() == next.scene_ids@.len());
    assert(id_texts(state.scene_ids@).len() == state.scene_ids@.len());
    assert(id_texts(next.artifact_ids@).len() == next.artifact_ids@.len());
}

/// Starts committing a render of the job `job_id`, frozen with the run
/// `run_id`, the target and the scenes it snapshotted; the first work is
/// loading the job.
pub fn start_commit_render(job_id: String, run_id: String, scene_ids: Vec<String>, target: RenderTargetData) -> (result: (
    CommitRenderState,
    CommitRenderAction,
))
    ensures
        result.0.stage == CommitRenderStage::AwaitJob,
        result.1 == CommitRenderAction::LoadJob,
        result.0.job_id == job_id,
        result.0.run_id == run_id,
        result.0.scene_ids == scene_ids,
        result.0.target == target,
        result.0.artifact_ids@.len() == 0,
{
    (
        CommitRenderState {
            stage: CommitRenderStage::AwaitJob,
            job_id,
            run_id,
            scene_ids,
            target,
            plan: Vec::new(),
            artifact_ids: Vec::new(),
            video_artifact_id: String::new(),
            result_artifact_id: String::new(),
        },
        CommitRenderAction::LoadJob,
    )
}

fn import_action(done: usize, scenes: usize) -> (action: CommitRenderAction)
    ensures
        action == import_after(done as int, scenes as int),
{
    if done < scenes {
        CommitRenderAction::ImportSnapshot { index: done }
    } else if done == scenes {
        CommitRenderAction::ImportVideo
    } else if done - scenes == 1 {
        CommitRenderAction::ImportLog
    } else {
        CommitRenderAction::Finish
    }
}

/// Takes the report of the outside work the commit waited for and decides: it
/// stops with an error (see [`commit_step_refusal`]) or moves on (see
/// [`commit_step_taken`]).
pub fn commit_render_step(state: CommitRenderState, event: CommitRenderEvent) -> (result: Result<
    (CommitRenderState, CommitRenderAction),
    RendererServiceError,
>)
    requires
        commit_awaited(state, event),
    ensures
        match commit_step_refusal(state, event) {
            Some((code, message)) => result matches Err(error) && error.code == code && error.operation
                == RendererOperation::CommitRender && error.message@ == message && !error.retryable,
            None => result matches Ok((next, action)) && commit_step_taken(state, event, next, action),
        },
{
    let operation = RendererOperation::CommitRender;
    let mut next = state;
    match event {
        CommitRenderEvent::JobLoaded { stage_run_id } => {
            let plan = match render_commit_plan(
                next.job_id.as_str(),
                &stage_run_id,
                next.run_id.as_str(),
                &next.scene_ids,
                &next.target,
                operation,
            ) {
                Ok(plan) => plan,
                Err(_) => {
                    return Err(
                        RendererServiceError::new(
                            RendererServiceErrorCode::JobConflict,
                            operation,
                            "Render commit 的 Job 与冻结 runId 不一致。",
                        ),
                    );
                },
            };
            next.plan = plan;
            next.artifact_ids = Vec::new();
            next.stage = CommitRenderStage::AwaitJournal;
            Ok((next, CommitRenderAction::BeginJournal))
        },
        CommitRenderEvent::JournalBegun => {
            next.stage = CommitRenderStage::AwaitImport;
            let action = import_action(0, next.scene_ids.len());
            Ok((next, action))
        },
        CommitRenderEvent::ArtifactImported { artifact_id } => {
            let id = match artifact_id {
                Some(text) => {
                    let n = text.as_str().as_bytes().len();
                    if n == 0 || n > 2048 {
                        return Err(
                            RendererServiceError::new(
                                RendererServiceErrorCode::ContractViolation,
                                operation,
                                "缺少字符串字段 artifactId。",
                            ),
                        );
                    }
                    text
                },
                None => {
                    return Err(
                        RendererServiceError::new(
                            RendererServiceErrorCode::ContractViolation,
                            operation,
                            "缺少字符串字段 artifactId。",
                        ),
                    );
                },
            };
            let ghost before = next.artifact_ids@;
            next.artifact_ids.push(id);
            assert(id_texts(next.artifact_ids@) =~= id_texts(before).push(artifact_id.unwrap()@));
            let scenes = next.scene_ids.len();
            let done = next.artifact_ids.len();
            let action = import_action(done, scenes);
            if done > scenes && done - scenes == 2 {
                next.video_artifact_id = next.artifact_ids[scenes].clone();
                next.result_artifact_id = next.artifact_ids[scenes + 1].clone();
                next.stage = CommitRenderStage::Done;
            }
            Ok((next, action))
        },
    }
}

} // verus!
