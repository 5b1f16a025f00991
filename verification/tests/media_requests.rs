use narracut_core::media_error::{MediaErrorCode, MediaOperation};
use narracut_core::media_rules::{
    map_storage_error, media_save_error_is_retryable, validate_generate_scene_plan_options,
    validate_generate_timeline_options, validate_get_media_document_options,
    validate_save_scene_plan_options, validate_save_timeline_options,
};
use narracut_core::media_types::{
    FrozenArtifactInputData, GenerateScenePlanOptions, GenerateTimelineOptions,
    GetMediaDocumentOptions, SaveScenePlanOptions, SaveTimelineOptions, ScenePlanEditData,
    TimelineCanvasData, TimelineEditData, TimelineSafeAreaData,
};
use narracut_core::storage_error::{StorageErrorCode, StorageOperation, StorageServiceError};

fn input(stage_id: &str) -> FrozenArtifactInputData {
    FrozenArtifactInputData {
        stage_id: stage_id.to_owned(),
        run_id: format!("run_{stage_id}"),
        artifact_id: format!("artifact_{stage_id}"),
        content_hash: format!("sha256:{}", "e".repeat(64)),
        review_record_id: format!("review_{stage_id}"),
        claim_ids: vec!["claim_1".to_owned()],
        evidence_refs: vec!["evidence_1".to_owned()],
    }
}

fn scene_plan_options() -> GenerateScenePlanOptions {
    GenerateScenePlanOptions {
        project_path: "/projects/demo".to_owned(),
        expected_project_id: "project_001".to_owned(),
        run_id: "run_scene_plan".to_owned(),
        research_input: input("research"),
        script_input: input("script"),
        captions_input: input("captions"),
        idempotency_key: "scene-plan-0001".to_owned(),
    }
}

fn timeline_options() -> GenerateTimelineOptions {
    GenerateTimelineOptions {
        project_path: "/projects/demo".to_owned(),
        expected_project_id: "project_001".to_owned(),
        run_id: "run_timeline".to_owned(),
        audio_input: input("audio"),
        captions_input: input("captions"),
        scene_plan_input: input("scene_plan"),
        canvas: TimelineCanvasData {
            width: 1920,
            height: 1080,
            frame_rate_numerator: 30,
            frame_rate_denominator: 1,
        },
        safe_area: TimelineSafeAreaData {
            x: 100,
            y: 80,
            width: 1720,
            height: 920,
        },
        idempotency_key: "timeline-0001".to_owned(),
    }
}

#[test]
fn generation_requests_check_identity_inputs_and_canvas() {
    assert!(validate_generate_scene_plan_options(&scene_plan_options()).is_ok());
    let mut options = scene_plan_options();
    options.idempotency_key = "short".to_owned();
    assert_eq!(
        validate_generate_scene_plan_options(&options).expect_err("short key").message,
        "Scene Plan 请求标识或幂等键无效。"
    );
    let mut options = scene_plan_options();
    options.captions_input.stage_id = "audio".to_owned();
    assert_eq!(
        validate_generate_scene_plan_options(&options).expect_err("wrong stage").message,
        "captions 冻结输入引用格式无效。"
    );
    let mut options = scene_plan_options();
    options.script_input.artifact_id = "artifact_research".to_owned();
    assert_eq!(
        validate_generate_scene_plan_options(&options).expect_err("shared artifact").message,
        "Scene Plan 的 Research/Script/Captions 必须引用不同 Artifact。"
    );

    assert!(validate_generate_timeline_options(&timeline_options()).is_ok());
    let mut options = timeline_options();
    options.safe_area.width = 1900;
    let error = validate_generate_timeline_options(&options).expect_err("safe area outside canvas");
    assert_eq!(error.code, MediaErrorCode::InvalidRequest);
    assert_eq!(error.message, "Timeline 冻结输入、canvas 或 safeArea 无效。");
    let mut options = timeline_options();
    options.run_id = "timeline".to_owned();
    assert_eq!(
        validate_generate_timeline_options(&options).expect_err("run id").message,
        "Timeline 请求标识或幂等键无效。"
    );
}

#[test]
fn save_requests_are_bounded() {
    let scene_plan = SaveScenePlanOptions {
        project_path: "/projects/demo".to_owned(),
        expected_project_id: "project_001".to_owned(),
        run_id: "run_save".to_owned(),
        base_artifact_id: "artifact_scene_plan".to_owned(),
        edits: vec![ScenePlanEditData::Merge {
            first_scene_id: "scene_001".to_owned(),
            second_scene_id: "scene_002".to_owned(),
        }],
        change_summary: "Merge the opening scenes.".to_owned(),
        idempotency_key: "save-scene-plan-1".to_owned(),
    };
    assert!(validate_save_scene_plan_options(&scene_plan).is_ok());
    let mut empty = scene_plan.clone();
    empty.edits.clear();
    let error = validate_save_scene_plan_options(&empty).expect_err("no edits");
    assert_eq!(error.message, "Scene Plan 保存请求无效或超过资源上限。");
    let mut summary = scene_plan;
    summary.change_summary = "bad\nsummary".to_owned();
    assert!(validate_save_scene_plan_options(&summary).is_err());

    let timeline = SaveTimelineOptions {
        project_path: "/projects/demo".to_owned(),
        expected_project_id: "project_001".to_owned(),
        run_id: "run_save".to_owned(),
        base_artifact_id: "artifact_timeline".to_owned(),
        edits: vec![TimelineEditData::SetCaptionVisibility { visible: false }; 1000],
        change_summary: "Hide captions.".to_owned(),
        idempotency_key: "save-timeline-01".to_owned(),
    };
    assert!(validate_save_timeline_options(&timeline).is_ok());
    let mut too_many = timeline.clone();
    too_many.edits.push(TimelineEditData::SetCaptionVisibility { visible: true });
    assert_eq!(validate_save_timeline_options(&too_many).expect_err("1001 edits").code, MediaErrorCode::InvalidRequest);
    let mut base = timeline;
    base.base_artifact_id = "timeline".to_owned();
    assert!(validate_save_timeline_options(&base).is_err());
}

#[test]
fn document_reads_and_storage_failures() {
    let read = GetMediaDocumentOptions {
        project_path: "/projects/demo".to_owned(),
        expected_project_id: "project_001".to_owned(),
        artifact_id: "artifact_timeline".to_owned(),
    };
    assert!(validate_get_media_document_options(&read).is_ok());
    let mut bad = read;
    bad.artifact_id = "artifact_".to_owned();
    assert_eq!(
        validate_get_media_document_options(&bad).expect_err("bad artifact").message,
        "媒体文档读取请求的项目或 Artifact 标识无效。"
    );

    let mapped = map_storage_error(
        StorageServiceError {
            code: StorageErrorCode::IoError,
            operation: StorageOperation::GetArtifact,
            message: "disk".to_owned(),
            path: Some("/secret/path".to_owned()),
            artifact_id: Some("artifact_1".to_owned()),
        },
        MediaOperation::GenerateTimeline,
    );
    assert_eq!(mapped.message, "媒体 Artifact 操作失败。");
    assert_eq!(mapped.artifact_id.as_deref(), Some("artifact_1"));
    assert!(media_save_error_is_retryable(MediaErrorCode::Io));
    assert!(media_save_error_is_retryable(MediaErrorCode::StorageUnavailable));
    assert!(!media_save_error_is_retryable(MediaErrorCode::InvalidRequest));
}
