use std::sync::{Arc, Mutex};

use narracut_core::project_error::{ProjectDescriptorData, ProjectErrorCode, ProjectOperation};
use narracut_core::project_rules::{
    check_migration_source, marker_format_version, migration_status, require_current_marker,
    validate_directory_metadata, validate_marker_metadata, validate_text,
    ProjectMigrationStatusData, CURRENT_PROJECT_FORMAT_VERSION,
};
use narracut_core::services::{ProjectService, TrashBackend};

/// A trash that records what it was asked to move and fails on request.
struct RecordingTrash {
    moved: Mutex<Vec<String>>,
    failure: Option<String>,
}

impl TrashBackend for RecordingTrash {
    fn trashed(&self, _path: &str, moved: &Result<(), String>) -> bool {
        match &self.failure {
            Some(reason) => moved.as_ref().err() == Some(reason),
            None => moved.is_ok(),
        }
    }

    fn move_to_trash(&self, path: &str) -> Result<(), String> {
        self.moved.lock().expect("trash log").push(path.to_owned());
        match &self.failure {
            Some(reason) => Err(reason.clone()),
            None => Ok(()),
        }
    }
}

fn service(failure: Option<&str>) -> (ProjectService<RecordingTrash>, Arc<RecordingTrash>) {
    let trash = Arc::new(RecordingTrash {
        moved: Mutex::new(Vec::new()),
        failure: failure.map(str::to_owned),
    });
    (ProjectService::new(trash.clone()), trash)
}

fn descriptor(project_id: &str) -> ProjectDescriptorData {
    ProjectDescriptorData {
        api_version: "1.0.0".to_owned(),
        project_path: "/projects/demo".to_owned(),
        marker_path: "/projects/demo/project.json".to_owned(),
        project_id: project_id.to_owned(),
        name: "Demo".to_owned(),
        workflow_definition_id: "workflow_default".to_owned(),
        project_format_version: CURRENT_PROJECT_FORMAT_VERSION,
        default_locale: Some("en".to_owned()),
        archived: false,
        archived_at: None,
        created_at: "2026-07-18T09:00:00Z".to_owned(),
        updated_at: "2026-07-18T09:00:00Z".to_owned(),
    }
}

#[test]
fn only_a_confirmed_project_reaches_the_trash() {
    let (projects, trash) = service(None);
    let error = projects
        .move_project_to_trash("/projects/demo", true, &descriptor("project_001"), "project_002")
        .expect_err("identity not confirmed");
    assert_eq!(error.code, ProjectErrorCode::InvalidRequest);
    let error = projects
        .move_project_to_trash("/", false, &descriptor("project_001"), "project_001")
        .expect_err("file system root");
    assert_eq!(error.code, ProjectErrorCode::InvalidPath);
    assert!(trash.moved.lock().expect("trash log").is_empty());

    let moved = projects
        .move_project_to_trash("/projects/demo", true, &descriptor("project_001"), "project_001")
        .expect("moved");
    assert_eq!(moved.project_id, "project_001");
    assert_eq!(moved.trashed_path, "/projects/demo");
    assert_eq!(*trash.moved.lock().expect("trash log"), vec!["/projects/demo".to_owned()]);

    let (projects, _) = service(Some("permission denied"));
    let error = projects
        .move_project_to_trash("/projects/demo", true, &descriptor("project_001"), "project_001")
        .expect_err("trash failed");
    assert_eq!(error.code, ProjectErrorCode::TrashFailed);
    assert_eq!(error.message, "移动项目到系统回收站失败：permission denied");
}

#[test]
fn inspection_opens_only_current_projects() {
    let (projects, _) = service(None);
    let current = projects.inspect_project("/projects/demo", "/projects/demo/project.json", CURRENT_PROJECT_FORMAT_VERSION, Some(descriptor("project_001")));
    assert_eq!(current.current_format_version, CURRENT_PROJECT_FORMAT_VERSION);
    let opened = projects.open_project(current, ProjectOperation::Open).expect("current project");
    assert_eq!(opened.project_id, "project_001");

    let legacy = projects.inspect_project("/projects/demo", "/projects/demo/project.json", 0, Some(descriptor("project_001")));
    assert_eq!(legacy.project, None);
    let error = projects.open_project(legacy, ProjectOperation::Open).expect_err("legacy");
    assert_eq!(error.code, ProjectErrorCode::MigrationRequired);
    assert_eq!(error.path.as_deref(), Some("/projects/demo/project.json"));

    let newer = projects.inspect_project("/projects/demo", "/projects/demo/project.json", 9, None);
    let error = projects.open_project(newer, ProjectOperation::Open).expect_err("newer");
    assert_eq!(error.code, ProjectErrorCode::UnsupportedNewerVersion);

    let empty = projects.inspect_project("/projects/demo", "/projects/demo/project.json", CURRENT_PROJECT_FORMAT_VERSION, None);
    assert_eq!(projects.open_project(empty, ProjectOperation::Open).expect_err("no descriptor").code, ProjectErrorCode::InvalidProject);
}

#[test]
fn migration_status_names_the_single_legacy_step() {
    assert_eq!(
        migration_status(CURRENT_PROJECT_FORMAT_VERSION),
        ProjectMigrationStatusData::Current { format_version: CURRENT_PROJECT_FORMAT_VERSION }
    );
    assert_eq!(
        migration_status(0),
        ProjectMigrationStatusData::Required {
            from_version: 0,
            to_version: CURRENT_PROJECT_FORMAT_VERSION,
            steps: vec!["project-v0-to-v1".to_owned()],
        }
    );
    assert_eq!(
        migration_status(7),
        ProjectMigrationStatusData::UnsupportedNewer { detected_version: 7, supported_version: CURRENT_PROJECT_FORMAT_VERSION }
    );
    assert!(check_migration_source(0, 0, ProjectOperation::Migrate, "project.json").is_ok());
    assert!(check_migration_source(0, 1, ProjectOperation::Migrate, "project.json").is_err());
    assert!(check_migration_source(CURRENT_PROJECT_FORMAT_VERSION, CURRENT_PROJECT_FORMAT_VERSION, ProjectOperation::Migrate, "project.json").is_err());
    assert!(require_current_marker(CURRENT_PROJECT_FORMAT_VERSION, ProjectOperation::Rename, "project.json").is_ok());
    assert_eq!(require_current_marker(0, ProjectOperation::Rename, "project.json").expect_err("legacy").code, ProjectErrorCode::MigrationRequired);
    let error = require_current_marker(5, ProjectOperation::Rename, "project.json").expect_err("newer");
    assert_eq!(error.code, ProjectErrorCode::UnsupportedNewerVersion);
    assert_eq!(error.detected_version, Some(5));
}

#[test]
fn marker_files_are_bounded_regular_files_with_a_version() {
    assert!(validate_marker_metadata(false, true, 1024, ProjectOperation::Open, "project.json").is_ok());
    assert_eq!(validate_marker_metadata(true, true, 1, ProjectOperation::Open, "project.json").expect_err("link").code, ProjectErrorCode::PathContainsSymlink);
    assert_eq!(validate_marker_metadata(false, false, 1, ProjectOperation::Open, "project.json").expect_err("dir").code, ProjectErrorCode::InvalidProject);
    let error = validate_marker_metadata(false, true, 1_048_577, ProjectOperation::Open, "project.json").expect_err("large");
    assert_eq!(error.code, ProjectErrorCode::MarkerTooLarge);
    assert_eq!(error.message, "项目标识文件超过 1048576 字节上限。");
    assert_eq!(marker_format_version(Some(1), ProjectOperation::Open, "project.json").ok(), Some(1));
    assert!(marker_format_version(None, ProjectOperation::Open, "project.json").is_err());
    assert!(marker_format_version(Some(1 << 33), ProjectOperation::Open, "project.json").is_err());
    assert!(validate_directory_metadata("/projects", false, true, ProjectOperation::Create).is_ok());
    assert_eq!(validate_directory_metadata("", false, true, ProjectOperation::Create).expect_err("empty").message, "路径不能为空。");
    assert_eq!(validate_directory_metadata("/projects", true, true, ProjectOperation::Create).expect_err("link").code, ProjectErrorCode::PathContainsSymlink);
    assert_eq!(validate_directory_metadata("/projects", false, false, ProjectOperation::Create).expect_err("file").message, "路径不是目录。");
}

#[test]
fn project_texts_are_trimmed_and_bounded() {
    assert_eq!(validate_text("  Demo  ", "项目名称", 120, ProjectOperation::Create).ok(), Some("Demo".to_owned()));
    let error = validate_text("   ", "项目名称", 120, ProjectOperation::Create).expect_err("blank");
    assert_eq!(error.message, "项目名称不能为空，且不能超过 120 个字符。");
    let error = validate_text("a\u{1}b", "项目名称", 120, ProjectOperation::Create).expect_err("control");
    assert_eq!(error.message, "项目名称不能包含控制字符。");
    assert!(validate_text(&"x".repeat(121), "项目名称", 120, ProjectOperation::Create).is_err());
}
