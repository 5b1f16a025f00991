use narracut_core::media_error::{MediaErrorCode, MediaOperation};
use narracut_core::media_save::{
    base_metadata_hash, check_save_base, check_save_input, check_save_stage, claimed_lease,
    media_save_input_refs, media_save_lease, BaseRefFields, MediaInputRef, SaveArtifactFacts,
    SaveInputFields, SaveLeaseDecision, MEDIA_EDITOR_WORKER,
};
use narracut_core::storage_types::IndexedJobStatusData;
use narracut_core::media_types::FrozenArtifactInputData;

fn facts(stage_id: &str, run_id: &str, hash: &str) -> SaveArtifactFacts {
    SaveArtifactFacts {
        owner_project_id: "project_001".to_owned(),
        content_available: true,
        stage_id: Some(stage_id.to_owned()),
        run_id: Some(run_id.to_owned()),
        content_hash: Some(hash.to_owned()),
    }
}

fn input() -> FrozenArtifactInputData {
    FrozenArtifactInputData {
        stage_id: "captions".to_owned(),
        run_id: "run_captions".to_owned(),
        artifact_id: "artifact_captions".to_owned(),
        content_hash: format!("sha256:{}", "c".repeat(64)),
        review_record_id: "review_captions".to_owned(),
        claim_ids: vec!["claim_1".to_owned()],
        evidence_refs: vec!["evidence_1".to_owned()],
    }
}

#[test]
fn only_scene_plans_and_timelines_are_saved() {
    assert!(check_save_stage("scene_plan", MediaOperation::SaveScenePlan).is_ok());
    assert!(check_save_stage("timeline", MediaOperation::SaveTimeline).is_ok());
    let error = check_save_stage("audio", MediaOperation::SaveTimeline).expect_err("audio");
    assert_eq!(error.code, MediaErrorCode::InvalidRequest);
    assert_eq!(error.message, "媒体编辑保存只支持 scene_plan 或 timeline 阶段。");
}

#[test]
fn the_base_artifact_must_be_the_projects_stage_with_content() {
    let base = facts("timeline", "run_timeline", "sha256:x");
    assert!(check_save_base(&base, "project_001", "timeline", "run_timeline", "artifact_base", MediaOperation::SaveTimeline).is_ok());
    let mut missing = base.clone();
    missing.content_available = false;
    let error = check_save_base(&missing, "project_001", "timeline", "run_timeline", "artifact_base", MediaOperation::SaveTimeline)
        .expect_err("no content");
    assert_eq!(error.code, MediaErrorCode::InputReferenceMismatch);
    assert_eq!(error.message, "媒体编辑基础 Artifact 无法冻结到执行快照。");
    assert_eq!(error.artifact_id.as_deref(), Some("artifact_base"));
    assert_eq!(error.run_id.as_deref(), Some("run_timeline"));
    assert!(check_save_base(&base, "project_002", "timeline", "run_timeline", "artifact_base", MediaOperation::SaveTimeline).is_err());
    assert!(check_save_base(&base, "project_001", "scene_plan", "run_timeline", "artifact_base", MediaOperation::SaveScenePlan).is_err());
}

#[test]
fn base_metadata_is_hashed_within_the_limit() {
    assert_eq!(
        base_metadata_hash(b"", MediaOperation::SaveTimeline).expect("empty"),
        "sha256:e3b0c44298fc1c149afbf4c8996fb92427ae41e4649b934ca495991b7852b855"
    );
    let large = vec![b' '; 16 * 1024 * 1024 + 1];
    let error = base_metadata_hash(&large, MediaOperation::SaveTimeline).expect_err("too large");
    assert_eq!(error.code, MediaErrorCode::ResourceLimitExceeded);
    assert_eq!(error.message, "媒体编辑基础 Artifact 元数据超过同步读取上限。");
}

#[test]
fn frozen_inputs_must_match_the_store() {
    let frozen = input();
    let read = facts("captions", "run_captions", &frozen.content_hash);
    assert!(check_save_input(&read, &frozen, "project_001", "timeline", "run_save", MediaOperation::SaveTimeline).is_ok());
    let changed = facts("captions", "run_captions", &format!("sha256:{}", "d".repeat(64)));
    let error = check_save_input(&changed, &frozen, "project_001", "timeline", "run_save", MediaOperation::SaveTimeline)
        .expect_err("changed content");
    assert_eq!(error.code, MediaErrorCode::InputReferenceMismatch);
    assert_eq!(error.message, "媒体编辑保存输入无法转换为已审核 Workflow Artifact 引用。");
    assert_eq!(error.artifact_id.as_deref(), Some("artifact_captions"));
    assert_eq!(error.stage_id.as_deref(), Some("timeline"));
    let other_run = facts("captions", "run_other", &frozen.content_hash);
    assert!(check_save_input(&other_run, &frozen, "project_001", "timeline", "run_save", MediaOperation::SaveTimeline).is_err());
}

#[test]
fn media_save_lease_follows_the_job_status() {
    let op = MediaOperation::SaveTimeline;
    let ours = Some((MEDIA_EDITOR_WORKER.to_owned(), "lease_1".to_owned()));
    let theirs = Some(("other_worker".to_owned(), "lease_2".to_owned()));
    assert_eq!(media_save_lease(IndexedJobStatusData::Queued, None, op).expect("claim"), SaveLeaseDecision::Claim);
    assert_eq!(media_save_lease(IndexedJobStatusData::Retrying, theirs.clone(), op).expect("claim"), SaveLeaseDecision::Claim);
    assert_eq!(media_save_lease(IndexedJobStatusData::Running, ours, op).expect("keep"), SaveLeaseDecision::Keep("lease_1".to_owned()));
    assert_eq!(media_save_lease(IndexedJobStatusData::Succeeded, None, op).expect("done"), SaveLeaseDecision::NoLease);
    let busy = media_save_lease(IndexedJobStatusData::Running, theirs, op).expect_err("other worker");
    assert_eq!(busy.code, MediaErrorCode::StorageUnavailable);
    assert_eq!(busy.message, "媒体编辑 Job 正由其他 worker 执行，请稍后按同一幂等键重试。");
    let unleased = media_save_lease(IndexedJobStatusData::Running, None, op).expect_err("no lease");
    assert_eq!(unleased.code, MediaErrorCode::StorageUnavailable);
    for status in [IndexedJobStatusData::Failed, IndexedJobStatusData::Canceled] {
        let error = media_save_lease(status, None, op).expect_err("terminal");
        assert_eq!(error.code, MediaErrorCode::StorageUnavailable);
        assert_eq!(error.message, "媒体编辑 Job 已处于不可重放的终态。");
    }
    assert_eq!(claimed_lease(Some("lease_3".to_owned()), op).expect("claimed"), "lease_3");
    let error = claimed_lease(None, op).expect_err("not claimed");
    assert_eq!(error.message, "媒体编辑 Job 暂时无法领取，请稍后按同一幂等键重试。");
}

#[test]
fn media_save_input_refs_put_the_base_first_then_each_input() {
    let base = BaseRefFields {
        kind: "timeline".to_owned(),
        metadata_hash: "sha256:meta".to_owned(),
        artifact_id: "artifact_base".to_owned(),
        claim_ids: vec!["claim_1".to_owned()],
        evidence_refs: vec![],
    };
    let inputs = vec![SaveInputFields { kind: "captions_media".to_owned(), input: input() }];
    let refs = media_save_input_refs("timeline", &base, &inputs);
    assert_eq!(refs.len(), 2);
    assert_eq!(
        refs[0],
        MediaInputRef::ProjectDocument {
            ref_id: "ref_save_timeline_base".to_owned(),
            kind: "timeline".to_owned(),
            content_hash: "sha256:meta".to_owned(),
            uri: "project://artifacts/metadata/artifact_base.json".to_owned(),
            claim_ids: vec!["claim_1".to_owned()],
            evidence_refs: vec![],
        }
    );
    assert_eq!(
        refs[1],
        MediaInputRef::Artifact {
            ref_id: "ref_save_timeline_0".to_owned(),
            kind: "captions_media".to_owned(),
            content_hash: input().content_hash,
            artifact_id: "artifact_captions".to_owned(),
            source_run_id: "run_captions".to_owned(),
            review_record_id: "review_captions".to_owned(),
            claim_ids: vec!["claim_1".to_owned()],
            evidence_refs: vec!["evidence_1".to_owned()],
        }
    );
}
