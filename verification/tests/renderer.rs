use narracut_core::render_commit::render_commit_plan;
use narracut_core::renderer_rules::stable_render_artifact_id;
use narracut_core::renderer_error::{RendererOperation, RendererServiceErrorCode};
use narracut_core::renderer_rules::{
    escape_html, scene_html, scene_traceability, target_provenance, validate_request_shape,
    validate_snapshot_html, validate_target_scene_capacity, ProvenanceItem,
    ProvenanceReferenceData, RenderCanvasData, RenderConfigData, SceneProvenanceInput,
    MAX_JOB_ARTIFACTS, RENDERER_MAX_SCENES, RENDER_FIXED_ARTIFACTS, SNAPSHOT_CSP,
};
use narracut_core::renderer_types::RenderTargetData;
use narracut_core::renderer_rules::scene_snapshot_id;
use narracut_core::scene_snapshot::{
    build_snapshot, seal_snapshot, SceneSnapshotData, SnapshotCanvasField, SnapshotPlanScene,
    SnapshotSafeArea, SnapshotTrackScene, TextArrayField,
};

fn strings(values: &[&str]) -> Vec<String> {
    values.iter().map(|value| (*value).to_owned()).collect()
}

fn pair(claim_id: &str, evidence_ref: &str) -> ProvenanceItem {
    ProvenanceItem {
        claim_id: Some(claim_id.to_owned()),
        evidence_ref: Some(evidence_ref.to_owned()),
    }
}

fn reference(claim_id: &str, evidence_ref: &str) -> ProvenanceReferenceData {
    ProvenanceReferenceData {
        claim_id: claim_id.to_owned(),
        evidence_ref: evidence_ref.to_owned(),
    }
}

fn text_array(values: &[&str]) -> TextArrayField {
    TextArrayField::Items(values.iter().map(|value| Some((*value).to_owned())).collect())
}

fn plan_scene(title: &str, role: &str, claims: &[&str], evidence: &[&str], provenance: SceneProvenanceInput) -> SnapshotPlanScene {
    SnapshotPlanScene {
        scene_id: Some("scene_001".to_owned()),
        title: Some(title.to_owned()),
        narrative_role: Some(role.to_owned()),
        cue_ids: text_array(&["cue_001"]),
        claim_ids: text_array(claims),
        evidence_refs: text_array(evidence),
        provenance,
    }
}

fn track(end_ms: u64) -> Vec<SnapshotTrackScene> {
    vec![SnapshotTrackScene {
        scene_id: Some("scene_001".to_owned()),
        start_ms: Some(0),
        end_ms: Some(end_ms),
    }]
}

fn canvas(width: u32, height: u32) -> SnapshotCanvasField {
    SnapshotCanvasField::Canvas(RenderCanvasData {
        width,
        height,
        frame_rate_numerator: 30,
        frame_rate_denominator: 1,
    })
}

fn area(x: u64, y: u64, width: u64, height: u64) -> Option<SnapshotSafeArea> {
    Some(SnapshotSafeArea {
        x: Some(x),
        y: Some(y),
        width: Some(width),
        height: Some(height),
    })
}

const TIMELINE_HASH: &str = "sha256:aaaaaaaaaaaaaaaaaaaaaaaaaaaaaaaaaaaaaaaaaaaaaaaaaaaaaaaaaaaaaaaa";

fn snapshot_of(
    scene: SnapshotPlanScene,
    end_ms: u64,
    drawn: SnapshotCanvasField,
    safe_area: Option<SnapshotSafeArea>,
) -> Result<SceneSnapshotData, narracut_core::renderer_error::RendererServiceError> {
    build_snapshot(
        "project_001",
        "artifact_timeline_001",
        TIMELINE_HASH,
        track(end_ms),
        vec![scene],
        "scene_001",
        drawn,
        safe_area,
        RendererOperation::CreateSceneSnapshot,
    )
}

#[test]
fn scene_snapshot_is_deterministic_isolated_and_html_escaped() {
    let build = || {
        snapshot_of(
            plan_scene("<unsafe & title>", "explain \"why\"", &["claim_001"], &["evidence_001"], SceneProvenanceInput::Absent),
            1500,
            canvas(1920, 1080),
            area(100, 80, 1720, 920),
        )
    };
    let first = build().expect("valid snapshot");
    let second = build().expect("same snapshot");
    assert_eq!(first, second);
    assert!(first.html.contains("&lt;unsafe &amp; title&gt;"));
    assert!(!first.html.contains("<script"));
    assert!(!first.html.contains("http://"));
    assert_eq!(first.csp, SNAPSHOT_CSP);
    assert!(first.resource_uris.is_empty());
    assert_eq!(first.snapshot_id, scene_snapshot_id("project_001", TIMELINE_HASH, "scene_001"));
    assert_eq!(first.caption_cue_ids, ["cue_001"]);
    assert_eq!((first.start_ms, first.end_ms), (0, 1500));
    assert_eq!(
        first.html,
        scene_html(
            &first.snapshot_id,
            "scene_001",
            "<unsafe & title>",
            "explain \"why\"",
            1920,
            1080,
            Some(100),
            Some(80),
            Some(1720),
            Some(920),
            &strings(&["claim_001"]),
            &strings(&["evidence_001"]),
        )
    );
    assert_eq!(escape_html("explain \"why\""), "explain &quot;why&quot;");
    validate_snapshot_html(&first.html, RendererOperation::CreateSceneSnapshot).expect("isolated snapshot");
}

#[test]
fn scene_snapshot_rejects_incomplete_claim_evidence_closure() {
    let error = snapshot_of(
        plan_scene("Title", "Role", &["claim_001"], &[], SceneProvenanceInput::Absent),
        1000,
        canvas(640, 360),
        area(0, 0, 640, 360),
    )
    .expect_err("traceability must fail closed");
    assert_eq!(error.code, RendererServiceErrorCode::TraceabilityIncomplete);
    let direct = scene_traceability(
        strings(&["claim_001"]),
        Vec::new(),
        &SceneProvenanceInput::Absent,
        RendererOperation::CreateSceneSnapshot,
    )
    .expect_err("traceability must fail closed");
    assert_eq!(direct.code, RendererServiceErrorCode::TraceabilityIncomplete);
}

#[test]
fn scene_snapshot_preserves_one_to_many_and_many_to_one_pairs() {
    let snapshot = snapshot_of(
        plan_scene(
            "Title",
            "Role",
            &["claim_001", "claim_002"],
            &["evidence_001", "evidence_002"],
            SceneProvenanceInput::Items(vec![
                pair("claim_001", "evidence_001"),
                pair("claim_001", "evidence_002"),
                pair("claim_002", "evidence_002"),
            ]),
        ),
        1000,
        canvas(640, 360),
        area(0, 0, 640, 360),
    )
    .expect("one-to-many and many-to-one provenance are legal");

    assert_eq!(snapshot.provenance.len(), 3);
    assert_eq!(snapshot.claim_ids, ["claim_001", "claim_002"]);
    assert_eq!(snapshot.evidence_refs, ["evidence_001", "evidence_002"]);
}

#[test]
fn scene_snapshot_refuses_missing_parts_in_order() {
    let scene = || plan_scene("Title", "Role", &["claim_001"], &["evidence_001"], SceneProvenanceInput::Absent);
    let missing_scene = build_snapshot(
        "project_001",
        "artifact_timeline_001",
        TIMELINE_HASH,
        track(1000),
        vec![scene()],
        "scene_009",
        canvas(640, 360),
        area(0, 0, 640, 360),
        RendererOperation::CreateSceneSnapshot,
    )
    .expect_err("unknown scene");
    assert_eq!(missing_scene.code, RendererServiceErrorCode::SceneNotFound);
    let mut untitled = scene();
    untitled.title = Some(String::new());
    let error = snapshot_of(untitled, 1000, canvas(640, 360), area(0, 0, 640, 360)).expect_err("empty title");
    assert_eq!(error.code, RendererServiceErrorCode::ContractViolation);
    assert_eq!(error.message, "缺少字符串字段 title。");
    let mut repeated = scene();
    repeated.cue_ids = text_array(&["cue_001", "cue_001"]);
    let error = snapshot_of(repeated, 1000, canvas(640, 360), area(0, 0, 640, 360)).expect_err("repeated cue");
    assert_eq!(error.message, "cueIds 包含重复值。");
    let mut not_text = scene();
    not_text.claim_ids = TextArrayField::Items(vec![None]);
    let error = snapshot_of(not_text, 1000, canvas(640, 360), area(0, 0, 640, 360)).expect_err("not text");
    assert_eq!(error.message, "claimIds 包含非字符串。");
    let error = snapshot_of(scene(), 1000, SnapshotCanvasField::Invalid, area(0, 0, 640, 360)).expect_err("bad canvas");
    assert_eq!(error.message, "Timeline canvas 无效。");
    let error = snapshot_of(scene(), 1000, canvas(640, 360), None).expect_err("no safe area");
    assert_eq!(error.message, "Timeline 缺少 safeArea。");
    let mut remote = scene();
    remote.title = Some("https://example.invalid".to_owned());
    let error = snapshot_of(remote, 1000, canvas(640, 360), area(0, 0, 640, 360)).expect_err("remote resource");
    assert_eq!(error.code, RendererServiceErrorCode::SnapshotTooLarge);

    let snapshot = snapshot_of(scene(), 1000, canvas(640, 360), area(0, 0, 640, 360)).expect("valid");
    let sealed = seal_snapshot(snapshot.clone(), b"{}");
    assert_eq!(sealed.content_hash, "sha256:44136fa355b3678a1146ad16f7e8649e94fb4fc21fe77e8310c060f61caaff8a");
    assert_eq!(SceneSnapshotData { content_hash: String::new(), ..sealed }, snapshot);
}

#[test]
fn target_provenance_never_leaks_from_an_unselected_scene() {
    let first = vec![reference("claim_001", "evidence_001")];
    let second = vec![reference("claim_002", "evidence_002")];

    assert_eq!(
        target_provenance(&[first]),
        vec![reference("claim_001", "evidence_001")]
    );
    assert_eq!(target_provenance(&[second]).len(), 1);
}

#[test]
fn render_request_rejects_unowned_codec_and_ffmpeg_surface() {
    let config = RenderConfigData {
        canvas: RenderCanvasData {
            width: 640,
            height: 360,
            frame_rate_numerator: 30,
            frame_rate_denominator: 1,
        },
        video_codec: "copy".into(),
        audio_codec: "aac".into(),
        pixel_format: "yuv420p".into(),
        preset: "fast".into(),
        crf: 23,
        max_duration_ms: 10_000,
        max_temporary_bytes: 64 * 1024 * 1024,
        timeout_ms: 60_000,
    };
    let error = validate_request_shape(
        "timeline",
        "run_render_001",
        "renderer-idempotency-001",
        &config,
        RendererOperation::EnqueueTimelineRender,
    )
    .expect_err("codec surface is adapter owned");
    assert_eq!(error.code, RendererServiceErrorCode::InvalidRequest);
}

#[test]
fn timeline_scene_capacity_matches_the_job_terminal_artifact_limit() {
    let accepted = validate_target_scene_capacity(
        &RenderTargetData::Timeline,
        Some(RENDERER_MAX_SCENES),
        RendererOperation::EnqueueTimelineRender,
    )
    .expect("254 scenes must be accepted before Job creation");
    assert_eq!(accepted, 254);
    assert_eq!(
        accepted + RENDER_FIXED_ARTIFACTS,
        MAX_JOB_ARTIFACTS,
        "snapshots + video + log must fit Job v1"
    );

    let error = validate_target_scene_capacity(
        &RenderTargetData::Timeline,
        Some(RENDERER_MAX_SCENES + 1),
        RendererOperation::EnqueueTimelineRender,
    )
    .expect_err("255 scenes must be rejected before Job creation");
    assert_eq!(error.code, RendererServiceErrorCode::ResourceLimitExceeded);
}

use narracut_core::renderer_rules::{
    check_render_matches_timeline, check_upstream_reference, render_config_from_timeline,
    scene_preview_config, UpstreamReferenceFacts,
};

#[test]
fn renders_use_the_frozen_canvas_within_the_duration_limit() {
    let canvas = RenderCanvasData {
        width: 1920,
        height: 1080,
        frame_rate_numerator: 30,
        frame_rate_denominator: 1,
    };
    let config = render_config_from_timeline(canvas);
    assert_eq!(config.video_codec, "libx264");
    assert_eq!(config.max_duration_ms, 86_400_000);
    let op = RendererOperation::ExecuteRender;
    assert!(check_render_matches_timeline(&config, Some(canvas), 60_000, op).is_ok());
    let mut other = canvas;
    other.frame_rate_numerator = 25;
    let error = check_render_matches_timeline(&config, Some(other), 60_000, op).expect_err("other frame rate");
    assert_eq!(error.code, RendererServiceErrorCode::InvalidRequest);
    assert!(check_render_matches_timeline(&config, None, 60_000, op).is_err());
    assert!(check_render_matches_timeline(&config, Some(canvas), 86_400_001, op).is_err());
    assert_eq!(scene_preview_config().canvas.width, 320);
}

#[test]
fn upstream_references_must_not_drift() {
    let facts = UpstreamReferenceFacts {
        stage_id: "audio".to_owned(),
        run_id: Some("run_audio".to_owned()),
        content_hash: "sha256:a".to_owned(),
        owner_project_id: "project_001".to_owned(),
        artifact_project_id: Some("project_001".to_owned()),
        artifact_stage_id: Some("audio".to_owned()),
        artifact_run_id: Some("run_audio".to_owned()),
        artifact_content_hash: Some("sha256:a".to_owned()),
    };
    let op = RendererOperation::ExecuteRender;
    assert!(check_upstream_reference(&facts, "artifact_audio", "project_001", op).is_ok());
    let mut drifted = facts.clone();
    drifted.artifact_content_hash = Some("sha256:b".to_owned());
    let error = check_upstream_reference(&drifted, "artifact_audio", "project_001", op).expect_err("drift");
    assert_eq!(error.code, RendererServiceErrorCode::InputHashMismatch);
    assert_eq!(error.artifact_id.as_deref(), Some("artifact_audio"));
    let mut foreign = facts;
    foreign.owner_project_id = "project_002".to_owned();
    assert!(check_upstream_reference(&foreign, "artifact_audio", "project_001", op).is_err());
}

#[test]
fn render_commit_plans_snapshots_video_and_log_for_its_own_job() {
    let scenes = strings(&["scene_001", "scene_002"]);
    let plan = render_commit_plan(
        "job_001",
        &Some("run_render_001".to_owned()),
        "run_render_001",
        &scenes,
        &RenderTargetData::Timeline,
        RendererOperation::CommitRender,
    )
    .expect("same run");
    let kinds: Vec<&str> = plan.iter().map(|entry| entry.kind.as_str()).collect();
    assert_eq!(kinds, ["scene_snapshot", "scene_snapshot", "rendered_video", "render_log"]);
    assert_eq!(plan[0].artifact_id, stable_render_artifact_id("job_001", "snapshot:scene_001"));
    assert_eq!(plan[1].artifact_id, stable_render_artifact_id("job_001", "snapshot:scene_002"));
    assert_eq!(plan[2].artifact_id, stable_render_artifact_id("job_001", "video"));
    assert_eq!(plan[3].artifact_id, stable_render_artifact_id("job_001", "render_log"));

    let scene_plan = render_commit_plan(
        "job_001",
        &Some("run_render_001".to_owned()),
        "run_render_001",
        &strings(&["scene_001"]),
        &RenderTargetData::Scene { scene_id: "scene_001".to_owned() },
        RendererOperation::CommitRender,
    )
    .expect("scene render");
    assert_eq!(scene_plan[1].kind, "rendered_scene");

    let error = render_commit_plan("job_001", &Some("run_other".to_owned()), "run_render_001", &scenes, &RenderTargetData::Timeline, RendererOperation::CommitRender)
        .expect_err("other run");
    assert_eq!(error.code, RendererServiceErrorCode::JobConflict);
    assert_eq!(error.message, "Render commit 的 Job 与冻结 runId 不一致。");
    assert!(render_commit_plan("job_001", &None, "run_render_001", &scenes, &RenderTargetData::Timeline, RendererOperation::CommitRender).is_err());
}
