use narracut_core::render_prepare::{
    prepare_render_step, start_prepare_render, AudioSourceCandidate, EnqueueRenderOptions,
    PrepareRenderAction, PrepareRenderEvent, PrepareRenderStage, PrepareRenderState,
    RenderTimelineFields, RenderUpstreamRef, UpstreamArtifactRead,
};
use narracut_core::render_commit_run::{
    commit_render_step, start_commit_render, CommitRenderAction, CommitRenderEvent, CommitRenderStage,
};
use narracut_core::renderer_rules::stable_render_artifact_id;
use narracut_core::renderer_error::{RendererOperation, RendererServiceErrorCode};
use narracut_core::renderer_rules::{RenderCanvasData, RenderConfigData};
use narracut_core::renderer_types::{RenderTargetData, RendererTimelineInputData};
use narracut_core::scene_snapshot::SnapshotCanvasField;

fn canvas() -> RenderCanvasData {
    RenderCanvasData { width: 1920, height: 1080, frame_rate_numerator: 30, frame_rate_denominator: 1 }
}

fn config() -> RenderConfigData {
    RenderConfigData {
        canvas: canvas(),
        video_codec: "libx264".to_owned(),
        audio_codec: "aac".to_owned(),
        pixel_format: "yuv420p".to_owned(),
        preset: "fast".to_owned(),
        crf: 23,
        max_duration_ms: 600_000,
        max_temporary_bytes: 1 << 30,
        timeout_ms: 600_000,
    }
}

fn request(target: RenderTargetData) -> EnqueueRenderOptions {
    EnqueueRenderOptions {
        project_path: "/projects/demo".to_owned(),
        expected_project_id: "project_001".to_owned(),
        run_id: "run_render_001".to_owned(),
        timeline_input: RendererTimelineInputData {
            stage_id: "timeline".to_owned(),
            run_id: "run_timeline".to_owned(),
            artifact_id: "artifact_timeline".to_owned(),
            content_hash: "sha256:t".to_owned(),
            review_record_id: "review_timeline".to_owned(),
            claim_ids: vec![],
            evidence_refs: vec![],
        },
        target,
        config: config(),
        idempotency_key: "render-key-001".to_owned(),
    }
}

fn reference(stage: &str) -> RenderUpstreamRef {
    RenderUpstreamRef {
        artifact_id: Some(format!("artifact_{stage}")),
        stage_id: Some(stage.to_owned()),
        content_hash: Some(format!("sha256:{stage}")),
        run_id: Some(format!("run_{stage}")),
    }
}

fn read(stage: &str) -> UpstreamArtifactRead {
    UpstreamArtifactRead {
        owner_project_id: "project_001".to_owned(),
        project_id: Some("project_001".to_owned()),
        stage_id: Some(stage.to_owned()),
        run_id: Some(format!("run_{stage}")),
        content_hash: Some(format!("sha256:{stage}")),
        content_verified: true,
    }
}

fn timeline() -> RenderTimelineFields {
    RenderTimelineFields {
        document_type: Some("timeline".to_owned()),
        project_id: Some("project_001".to_owned()),
        run_id: Some("run_timeline".to_owned()),
        duration_ms: Some(12_000),
        canvas: SnapshotCanvasField::Canvas(canvas()),
        input_refs: Some(vec![reference("audio"), reference("captions"), reference("scene_plan")]),
        scene_track: Some(vec![Some("scene_001".to_owned()), Some("scene_002".to_owned())]),
    }
}

fn step(state: PrepareRenderState, event: PrepareRenderEvent, expected: PrepareRenderAction) -> PrepareRenderState {
    let (next, action) = prepare_render_step(state, event).expect("accepted step");
    assert_eq!(action, expected);
    next
}

fn until_timeline(target: RenderTargetData, preview_only: bool) -> PrepareRenderState {
    let (state, action) = start_prepare_render(request(target), preview_only);
    assert_eq!(action, PrepareRenderAction::OpenProject);
    let state = step(state, PrepareRenderEvent::ProjectOpened { project_id: "project_001".to_owned() }, PrepareRenderAction::ApproveTimeline);
    step(state, PrepareRenderEvent::TimelineApproved, PrepareRenderAction::ReadTimeline)
}

#[test]
fn render_preparation_collects_sources_audio_and_scenes() {
    let state = until_timeline(RenderTargetData::Timeline, false);
    assert_eq!(state.operation, RendererOperation::ExecuteRender);
    let state = step(state, PrepareRenderEvent::TimelineRead { content_verified: true, timeline: timeline() }, PrepareRenderAction::ReadUpstream);
    let state = step(
        state,
        PrepareRenderEvent::UpstreamRead {
            reads: vec![read("audio"), read("captions"), read("scene_plan")],
            audio_sources: Some(vec!["artifact_text".to_owned(), "artifact_raw".to_owned()]),
        },
        PrepareRenderAction::ResolveAudioSource,
    );
    let candidates = vec![
        AudioSourceCandidate { artifact_id: "artifact_text".to_owned(), kind: Some("script".to_owned()) },
        AudioSourceCandidate { artifact_id: "artifact_raw".to_owned(), kind: Some("audio_source".to_owned()) },
    ];
    let state = step(state, PrepareRenderEvent::AudioSourceResolved { candidates }, PrepareRenderAction::CheckRawAudio);
    assert_eq!(state.raw_audio_artifact_id, "artifact_raw");
    let state = step(state, PrepareRenderEvent::RawAudioChecked { verified: true }, PrepareRenderAction::BuildSnapshots);
    assert_eq!(state.stage, PrepareRenderStage::Done);
    assert_eq!(
        state.source_artifact_ids,
        vec!["artifact_timeline", "artifact_audio", "artifact_captions", "artifact_scene_plan", "artifact_raw"]
    );
    assert_eq!(state.target_scene_ids, vec!["scene_001", "scene_002"]);
    assert_eq!(state.options.config, config());
}

#[test]
fn scene_preview_takes_the_default_config_on_the_timeline_canvas() {
    let state = until_timeline(RenderTargetData::Scene { scene_id: "scene_002".to_owned() }, true);
    assert_eq!(state.operation, RendererOperation::CreateSceneSnapshot);
    let state = step(state, PrepareRenderEvent::TimelineRead { content_verified: true, timeline: timeline() }, PrepareRenderAction::ReadUpstream);
    assert_eq!(state.options.config.max_duration_ms, 86_400_000);
    assert_eq!(state.options.config.crf, 23);
    assert_eq!(state.options.config.canvas, canvas());

    let mut no_canvas = timeline();
    no_canvas.canvas = SnapshotCanvasField::Invalid;
    let error = prepare_render_step(until_timeline(RenderTargetData::Timeline, true), PrepareRenderEvent::TimelineRead { content_verified: true, timeline: no_canvas })
        .expect_err("invalid canvas");
    assert_eq!(error.code, RendererServiceErrorCode::ContractViolation);
    assert_eq!(error.message, "Timeline canvas 无效。");
}

#[test]
fn render_preparation_refuses_drift_and_mismatches() {
    let (state, _) = start_prepare_render(request(RenderTargetData::Timeline), false);
    let error = prepare_render_step(state, PrepareRenderEvent::ProjectOpened { project_id: "project_002".to_owned() }).expect_err("project");
    assert_eq!(error.code, RendererServiceErrorCode::ProjectIdentityMismatch);

    let error = prepare_render_step(until_timeline(RenderTargetData::Timeline, false), PrepareRenderEvent::TimelineRead { content_verified: false, timeline: timeline() })
        .expect_err("timeline content");
    assert_eq!(error.code, RendererServiceErrorCode::InputHashMismatch);
    assert_eq!(error.artifact_id.as_deref(), Some("artifact_timeline"));

    let mut longer = timeline();
    longer.duration_ms = Some(600_001);
    let error = prepare_render_step(until_timeline(RenderTargetData::Timeline, false), PrepareRenderEvent::TimelineRead { content_verified: true, timeline: longer })
        .expect_err("too long");
    assert_eq!(error.code, RendererServiceErrorCode::InvalidRequest);
    assert_eq!(error.message, "渲染画布/帧率必须与冻结 Timeline 完全一致，且时长不能超过配置上限。");

    let state = step(until_timeline(RenderTargetData::Timeline, false), PrepareRenderEvent::TimelineRead { content_verified: true, timeline: timeline() }, PrepareRenderAction::ReadUpstream);
    let mut drifted = read("captions");
    drifted.content_hash = Some("sha256:other".to_owned());
    let error = prepare_render_step(
        state.clone(),
        PrepareRenderEvent::UpstreamRead { reads: vec![read("audio"), drifted, read("scene_plan")], audio_sources: None },
    )
    .expect_err("drift");
    assert_eq!(error.code, RendererServiceErrorCode::InputHashMismatch);
    assert_eq!(error.message, "Timeline 的上游引用发生身份或哈希漂移。");
    assert_eq!(error.artifact_id.as_deref(), Some("artifact_captions"));

    let state = step(
        state,
        PrepareRenderEvent::UpstreamRead { reads: vec![read("audio"), read("captions"), read("scene_plan")], audio_sources: None },
        PrepareRenderAction::ResolveAudioSource,
    );
    let error = prepare_render_step(state, PrepareRenderEvent::AudioSourceResolved { candidates: vec![] }).expect_err("no raw audio");
    assert_eq!(error.message, "Audio 文档未闭合到原始 audio_source Artifact。");
}

#[test]
fn render_preparation_requires_a_scene_plan_and_bounded_scenes() {
    let mut no_plan = timeline();
    no_plan.input_refs = Some(vec![reference("audio"), reference("captions")]);
    let state = step(until_timeline(RenderTargetData::Timeline, false), PrepareRenderEvent::TimelineRead { content_verified: true, timeline: no_plan }, PrepareRenderAction::ReadUpstream);
    let error = prepare_render_step(state, PrepareRenderEvent::UpstreamRead { reads: vec![read("audio"), read("captions")], audio_sources: None })
        .expect_err("no scene plan");
    assert_eq!(error.message, "Timeline 缺少 Scene Plan 引用。");

    let mut empty = timeline();
    empty.scene_track = Some(vec![]);
    let state = step(until_timeline(RenderTargetData::Timeline, false), PrepareRenderEvent::TimelineRead { content_verified: true, timeline: empty }, PrepareRenderAction::ReadUpstream);
    let state = step(
        state,
        PrepareRenderEvent::UpstreamRead { reads: vec![read("audio"), read("captions"), read("scene_plan")], audio_sources: Some(vec!["artifact_raw".to_owned()]) },
        PrepareRenderAction::ResolveAudioSource,
    );
    let state = step(
        state,
        PrepareRenderEvent::AudioSourceResolved { candidates: vec![AudioSourceCandidate { artifact_id: "artifact_raw".to_owned(), kind: Some("audio_source".to_owned()) }] },
        PrepareRenderAction::CheckRawAudio,
    );
    let error = prepare_render_step(state.clone(), PrepareRenderEvent::RawAudioChecked { verified: false }).expect_err("raw audio");
    assert_eq!(error.code, RendererServiceErrorCode::InputHashMismatch);
    assert_eq!(error.artifact_id.as_deref(), Some("artifact_raw"));
    let error = prepare_render_step(state, PrepareRenderEvent::RawAudioChecked { verified: true }).expect_err("no scenes");
    assert_eq!(error.code, RendererServiceErrorCode::ResourceLimitExceeded);
}

#[test]
fn render_commit_imports_snapshots_then_video_then_result() {
    let scenes = vec!["scene_001".to_owned(), "scene_002".to_owned()];
    let (state, action) = start_commit_render("job_001".to_owned(), "run_render_001".to_owned(), scenes, RenderTargetData::Timeline);
    assert_eq!(action, CommitRenderAction::LoadJob);
    let (state, action) = commit_render_step(state, CommitRenderEvent::JobLoaded { stage_run_id: Some("run_render_001".to_owned()) }).expect("job");
    assert_eq!(action, CommitRenderAction::BeginJournal);
    let planned: Vec<(String, String)> = state.plan.iter().map(|entry| (entry.artifact_id.clone(), entry.kind.clone())).collect();
    assert_eq!(
        planned,
        vec![
            (stable_render_artifact_id("job_001", "snapshot:scene_001"), "scene_snapshot".to_owned()),
            (stable_render_artifact_id("job_001", "snapshot:scene_002"), "scene_snapshot".to_owned()),
            (stable_render_artifact_id("job_001", "video"), "rendered_video".to_owned()),
            (stable_render_artifact_id("job_001", "render_log"), "render_log".to_owned()),
        ]
    );
    let (mut state, mut action) = commit_render_step(state, CommitRenderEvent::JournalBegun).expect("journal");
    let mut seen = vec![action];
    for id in ["artifact_s1", "artifact_s2", "artifact_video", "artifact_log"] {
        let (next, next_action) = commit_render_step(state, CommitRenderEvent::ArtifactImported { artifact_id: Some(id.to_owned()) }).expect("import");
        state = next;
        action = next_action;
        seen.push(action);
    }
    assert_eq!(
        seen,
        vec![
            CommitRenderAction::ImportSnapshot { index: 0 },
            CommitRenderAction::ImportSnapshot { index: 1 },
            CommitRenderAction::ImportVideo,
            CommitRenderAction::ImportLog,
            CommitRenderAction::Finish,
        ]
    );
    assert_eq!(state.stage, CommitRenderStage::Done);
    assert_eq!(state.artifact_ids, vec!["artifact_s1", "artifact_s2", "artifact_video", "artifact_log"]);
    assert_eq!(state.video_artifact_id, "artifact_video");
    assert_eq!(state.result_artifact_id, "artifact_log");
}

#[test]
fn render_commit_refuses_another_run_and_a_missing_artifact_id() {
    let (state, _) = start_commit_render("job_001".to_owned(), "run_render_001".to_owned(), vec![], RenderTargetData::Scene { scene_id: "scene_001".to_owned() });
    let error = commit_render_step(state.clone(), CommitRenderEvent::JobLoaded { stage_run_id: Some("run_other".to_owned()) }).expect_err("other run");
    assert_eq!(error.code, RendererServiceErrorCode::JobConflict);
    assert_eq!(error.message, "Render commit 的 Job 与冻结 runId 不一致。");
    let (state, _) = commit_render_step(state, CommitRenderEvent::JobLoaded { stage_run_id: Some("run_render_001".to_owned()) }).expect("job");
    assert_eq!(state.plan[0].kind, "rendered_scene");
    let (state, action) = commit_render_step(state, CommitRenderEvent::JournalBegun).expect("journal");
    assert_eq!(action, CommitRenderAction::ImportVideo);
    let error = commit_render_step(state, CommitRenderEvent::ArtifactImported { artifact_id: Some(String::new()) }).expect_err("empty id");
    assert_eq!(error.code, RendererServiceErrorCode::ContractViolation);
    assert_eq!(error.message, "缺少字符串字段 artifactId。");
}
