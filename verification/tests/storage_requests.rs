use narracut_core::project_error::{ProjectDescriptorData, ProjectErrorCode, ProjectOperation, ProjectServiceError};
use narracut_core::storage_error::{StorageErrorCode, StorageOperation, StorageServiceError};
use narracut_core::storage_requests::{
    check_read_content, select_recent_projects, validate_content_read_limit,
    validate_forget_project_id, validate_recent_projects_limit, verification_status,
    RecentProjectRow,
};
use narracut_core::storage_rules::{
    map_project_error, redact_media_source_error, require_project_identity, validate_artifact_id,
    validate_media_receipt_id, validate_media_source_limit,
};
use narracut_core::storage_types::ArtifactVerificationStatusData;

fn row(project_id: &str, version: i64, path_available: bool) -> RecentProjectRow {
    RecentProjectRow {
        project_id: project_id.to_owned(),
        project_path: format!("/projects/{project_id}"),
        name: project_id.to_uppercase(),
        workflow_definition_id: "workflow_default".to_owned(),
        project_format_version: version,
        archived: 1,
        last_opened_at: "2026-07-18T09:00:00Z".to_owned(),
        marker_updated_at: "2026-07-18T08:00:00Z".to_owned(),
        path_available,
    }
}

#[test]
fn recent_projects_skip_missing_paths_up_to_the_limit() {
    let rows = vec![row("p1", 1, true), row("p2", 1, false), row("p3", 1, true), row("p4", 1, true)];
    let picked = select_recent_projects(&rows, 2, false, "index.sqlite").expect("pick");
    let ids: Vec<&str> = picked.iter().map(|project| project.project_id.as_str()).collect();
    assert_eq!(ids, vec!["p1", "p3"]);
    assert!(picked[0].archived);
    assert_eq!(picked[0].name, "P1");
    let picked = select_recent_projects(&rows, 2, true, "index.sqlite").expect("pick all");
    let ids: Vec<&str> = picked.iter().map(|project| project.project_id.as_str()).collect();
    assert_eq!(ids, vec!["p1", "p2"]);
    let bad = vec![row("p1", -1, true)];
    let error = select_recent_projects(&bad, 5, true, "index.sqlite").expect_err("bad version");
    assert_eq!(error.code, StorageErrorCode::IndexUnavailable);
    let late_bad = vec![row("p1", 1, true), row("p2", 1 << 40, true)];
    assert_eq!(select_recent_projects(&late_bad, 1, true, "index.sqlite").expect("limit reached first").len(), 1);
}

#[test]
fn storage_request_limits_and_identifiers() {
    assert!(validate_recent_projects_limit(1).is_ok());
    assert!(validate_recent_projects_limit(100).is_ok());
    assert_eq!(validate_recent_projects_limit(0).expect_err("zero").message, "最近项目 limit 必须位于 1..=100。");
    assert!(validate_recent_projects_limit(101).is_err());
    assert!(validate_forget_project_id(" project ").is_ok());
    assert_eq!(validate_forget_project_id(" \t").expect_err("blank").message, "ownerProjectId 不能为空。");
    assert!(validate_content_read_limit(10, 10).is_ok());
    assert_eq!(validate_content_read_limit(11, 10).expect_err("over").message, "内容读取上限必须位于 1..=10 字节。");
    assert!(validate_content_read_limit(0, 10).is_err());
    assert!(validate_media_source_limit(5, 10, StorageOperation::ManageMediaSource).is_ok());
    assert_eq!(
        validate_media_source_limit(0, 10, StorageOperation::ManageMediaSource).expect_err("zero").message,
        "媒体源同步上限必须位于 1..=10 字节。"
    );
    assert!(validate_artifact_id("artifact_ab-1.c", StorageOperation::GetArtifact).is_ok());
    assert!(validate_artifact_id("artifact_", StorageOperation::GetArtifact).is_err());
    assert!(validate_artifact_id("blob_1", StorageOperation::GetArtifact).is_err());
    assert!(validate_media_receipt_id(&"ab".repeat(32), StorageOperation::ManageMediaReceipt).is_ok());
    assert!(validate_media_receipt_id(&"AB".repeat(32), StorageOperation::ManageMediaReceipt).is_err());
    assert!(validate_media_receipt_id("ab", StorageOperation::ManageMediaReceipt).is_err());
}

#[test]
fn content_reads_and_verification_compare_hash_and_length() {
    assert!(check_read_content(true, "sha256:a", 3, "sha256:a", 3, "artifact_1", "blob").is_ok());
    let error = check_read_content(false, "sha256:a", 3, "sha256:a", 3, "artifact_1", "blob").expect_err("missing");
    assert_eq!(error.message, "Artifact 内容对象不存在。");
    assert_eq!(error.path, None);
    let error = check_read_content(true, "sha256:a", 3, "sha256:b", 3, "artifact_1", "blob").expect_err("corrupt");
    assert_eq!(error.code, StorageErrorCode::ContentCorrupt);
    assert_eq!(error.path.as_deref(), Some("blob"));
    assert_eq!(error.artifact_id.as_deref(), Some("artifact_1"));

    assert_eq!(verification_status("sha256:a", 3, None), ArtifactVerificationStatusData::MissingContent);
    assert_eq!(verification_status("sha256:a", 3, Some(("sha256:b", 4))), ArtifactVerificationStatusData::ByteLengthMismatch);
    assert_eq!(verification_status("sha256:a", 3, Some(("sha256:b", 3))), ArtifactVerificationStatusData::HashMismatch);
    assert_eq!(verification_status("sha256:a", 3, Some(("sha256:a", 3))), ArtifactVerificationStatusData::Verified);
}

fn descriptor(project_id: &str) -> ProjectDescriptorData {
    ProjectDescriptorData {
        api_version: "1.0.0".to_owned(),
        project_path: "/projects/demo".to_owned(),
        marker_path: "/projects/demo/project.json".to_owned(),
        project_id: project_id.to_owned(),
        name: "Demo".to_owned(),
        workflow_definition_id: "workflow_default".to_owned(),
        project_format_version: 1,
        default_locale: None,
        archived: false,
        archived_at: None,
        created_at: "2026-07-18T09:00:00Z".to_owned(),
        updated_at: "2026-07-18T09:00:00Z".to_owned(),
    }
}

#[test]
fn project_identity_and_errors_carry_over_to_storage() {
    assert!(require_project_identity(&descriptor("project_001"), "project_001", StorageOperation::ImportArtifact).is_ok());
    let error = require_project_identity(&descriptor("project_001"), "project_002", StorageOperation::ImportArtifact)
        .expect_err("other project");
    assert_eq!(error.code, StorageErrorCode::ProjectIdentityMismatch);
    assert_eq!(error.path.as_deref(), Some("/projects/demo"));

    let project_error = ProjectServiceError {
        code: ProjectErrorCode::MarkerMissing,
        operation: ProjectOperation::Open,
        message: "missing marker".to_owned(),
        path: Some("/projects/demo".to_owned()),
        supported_version: None,
        detected_version: None,
    };
    let mapped = map_project_error(project_error, StorageOperation::ImportArtifact);
    assert_eq!(mapped.code, StorageErrorCode::ProjectNotFound);
    assert_eq!(mapped.message, "missing marker");
    assert_eq!(mapped.path.as_deref(), Some("/projects/demo"));

    let redacted = redact_media_source_error(StorageServiceError {
        code: StorageErrorCode::SourceNotFound,
        operation: StorageOperation::ManageMediaSource,
        message: "gone".to_owned(),
        path: Some("/home/user/secret.wav".to_owned()),
        artifact_id: None,
    });
    assert_eq!(redacted.path, None);
    assert_eq!(redacted.code, StorageErrorCode::SourceNotFound);
}
