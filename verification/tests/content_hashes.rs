use narracut_core::content_hash::{
    artifact_verification_result, check_artifact_content, verify_artifact_content, ContentHasher,
};
use narracut_core::storage_error::{StorageErrorCode, StorageOperation};
use narracut_core::storage_types::{ArtifactVerificationStatusData, STORAGE_COMMAND_API_VERSION};
use sha2::{Digest, Sha256};

fn reference_hash(bytes: &[u8]) -> String {
    let digest = Sha256::digest(bytes);
    let hex: String = digest.iter().map(|byte| format!("{byte:02x}")).collect();
    format!("sha256:{hex}")
}

#[test]
fn streamed_chunks_hash_like_the_whole_content() {
    let mut hasher = ContentHasher::new();
    hasher.absorb(b"narra");
    hasher.absorb(b"");
    hasher.absorb(b"cut content");
    assert_eq!(hasher.finish(), reference_hash(b"narracut content"));
    assert_eq!(
        ContentHasher::new().finish(),
        "sha256:e3b0c44298fc1c149afbf4c8996fb92427ae41e4649b934ca495991b7852b855"
    );
}

#[test]
fn stored_content_must_match_recorded_hash_and_length() {
    let content = b"frame data";
    let hash = reference_hash(content);
    assert!(check_artifact_content(content, &hash, 10, "artifact_1", "/p/c").is_ok());

    let wrong_length = check_artifact_content(content, &hash, 11, "artifact_1", "/p/c")
        .expect_err("length mismatch");
    assert_eq!(wrong_length.code, StorageErrorCode::ContentCorrupt);
    assert_eq!(wrong_length.message, "Artifact 内容哈希或字节数与不可变元数据不一致。");
    assert_eq!(wrong_length.path.as_deref(), Some("/p/c"));
    assert_eq!(wrong_length.artifact_id.as_deref(), Some("artifact_1"));

    let wrong_hash = check_artifact_content(content, &reference_hash(b"other"), 10, "artifact_1", "/p/c")
        .expect_err("hash mismatch");
    assert_eq!(wrong_hash.code, StorageErrorCode::ContentCorrupt);
    assert_eq!(wrong_hash.operation, StorageOperation::GetArtifact);
}

#[test]
fn verification_reports_length_before_hash() {
    let content = b"abc";
    let hash = reference_hash(content);
    assert_eq!(verify_artifact_content(content, &hash, 3), ArtifactVerificationStatusData::Verified);
    assert_eq!(verify_artifact_content(content, &hash, 4), ArtifactVerificationStatusData::ByteLengthMismatch);
    assert_eq!(
        verify_artifact_content(content, &reference_hash(b"abd"), 3),
        ArtifactVerificationStatusData::HashMismatch
    );
    assert_eq!(
        verify_artifact_content(content, &reference_hash(b"abd"), 4),
        ArtifactVerificationStatusData::ByteLengthMismatch
    );
}

#[test]
fn verification_report_records_expected_and_actual_values() {
    let missing = artifact_verification_result("project_1", "artifact_1", "sha256:00", 5, None);
    assert_eq!(missing.api_version, STORAGE_COMMAND_API_VERSION);
    assert_eq!(missing.status, ArtifactVerificationStatusData::MissingContent);
    assert_eq!(missing.actual_content_hash, None);
    assert_eq!(missing.actual_byte_length, None);
    assert_eq!(missing.expected_byte_length, 5);

    let found = artifact_verification_result(
        "project_1",
        "artifact_1",
        "sha256:00",
        5,
        Some(("sha256:11".to_owned(), 5)),
    );
    assert_eq!(found.status, ArtifactVerificationStatusData::HashMismatch);
    assert_eq!(found.actual_content_hash.as_deref(), Some("sha256:11"));
    assert_eq!(found.actual_byte_length, Some(5));
    assert_eq!(found.owner_project_id, "project_1");
    assert_eq!(found.artifact_id, "artifact_1");
}
