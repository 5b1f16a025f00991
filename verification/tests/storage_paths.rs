use narracut_core::project_error::{ProjectErrorCode, ProjectOperation, ProjectServiceError};
use narracut_core::staged_source::{content_uri_for_hash, parse_media_source_uri};
use narracut_core::storage_error::{StorageErrorCode, StorageOperation};
use narracut_core::storage_rules::map_project_error;

#[test]
fn content_hash_path_requires_canonical_lowercase_sha256() {
    let valid = format!("sha256:{}", "ab".repeat(32));
    assert_eq!(
        content_uri_for_hash(&valid, StorageOperation::GetArtifact).expect("valid content hash"),
        format!("artifacts/objects/sha256/ab/{}", "ab".repeat(32))
    );

    let uppercase = format!("sha256:{}", "AB".repeat(32));
    let error = content_uri_for_hash(&uppercase, StorageOperation::GetArtifact)
        .expect_err("uppercase hash must fail");
    assert_eq!(error.code, StorageErrorCode::InvalidArtifact);
}

#[test]
fn staged_source_uri_parser_accepts_only_the_canonical_bounded_layout() {
    let hash = "ab".repeat(32);
    let valid = format!("requests/media-sources/sha256/ab/{hash}/source-caption%20final.srt");
    let (parsed_hash, file_name) =
        parse_media_source_uri(&valid, StorageOperation::ManageMediaSource)
            .expect("canonical staged source URI");
    assert_eq!(parsed_hash, hash);
    assert_eq!(file_name, "source-caption%20final.srt");

    for invalid in [
        format!("requests/media-sources/.tmp/ab/{hash}/source-caption.srt"),
        format!("requests/media-sources/sha256/ab/{hash}/source-caption.srt/extra"),
        format!("requests\\media-sources\\sha256\\ab\\{hash}\\source-caption.srt"),
        format!("requests/media-sources/sha256/ab/{hash}/source-%2E%2E"),
        format!("requests/media-sources/sha256/ab/{hash}/source-%2Fescape"),
        format!("requests/media-sources/sha256/cd/{hash}/source-caption.srt"),
        format!(
            "requests/media-sources/sha256/ab/{}/source-caption.srt",
            hash.to_uppercase()
        ),
    ] {
        assert!(
            parse_media_source_uri(&invalid, StorageOperation::ManageMediaSource).is_err(),
            "invalid staged source URI was accepted: {invalid}"
        );
    }
}

#[test]
fn project_open_failures_keep_actionable_storage_codes() {
    for (project_code, storage_code) in [
        (
            ProjectErrorCode::MigrationRequired,
            StorageErrorCode::MigrationRequired,
        ),
        (
            ProjectErrorCode::UnsupportedNewerVersion,
            StorageErrorCode::UnsupportedNewerVersion,
        ),
        (
            ProjectErrorCode::InvalidProject,
            StorageErrorCode::InvalidProject,
        ),
        (ProjectErrorCode::IoError, StorageErrorCode::IoError),
    ] {
        let mapped = map_project_error(
            ProjectServiceError::new(project_code, ProjectOperation::Open, "project error"),
            StorageOperation::GetArtifact,
        );
        assert_eq!(mapped.code, storage_code);
    }
}
