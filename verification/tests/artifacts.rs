use narracut_core::artifact_checks::{
    check_document_type, check_read_identity, check_scanned_identity, count_metadata_file,
    metadata_uri_for, portable_uri_components, required_count, required_field,
    validate_imported_source_hash, validate_metadata_file, ArtifactSourceFacts,
};
use narracut_core::storage_error::{StorageErrorCode, StorageOperation};

const HASH_HEX: &str = "abababababababababababababababababababababababababababababababab";

fn hash() -> String {
    format!("sha256:{HASH_HEX}")
}

fn content_uri() -> String {
    format!("artifacts/objects/sha256/ab/{HASH_HEX}")
}

#[test]
fn metadata_paths_and_required_fields() {
    assert_eq!(metadata_uri_for("artifact_1"), "artifacts/metadata/artifact_1.json");
    let op = StorageOperation::GetArtifact;
    assert_eq!(required_field(Some("x"), "kind", op).ok(), Some("x".to_owned()));
    assert_eq!(required_field(None, "kind", op).expect_err("missing").message, "Artifact 缺少字符串字段 kind。");
    assert_eq!(required_count(Some(7), "byteLength", op).ok(), Some(7));
    assert_eq!(required_count(None, "byteLength", op).expect_err("missing").message, "Artifact 缺少整数数字段 byteLength。");
    assert!(validate_metadata_file(true, true, 1024, op, "m.json").is_ok());
    assert_eq!(validate_metadata_file(false, false, 0, op, "m.json").expect_err("missing").code, StorageErrorCode::ArtifactNotFound);
    assert_eq!(validate_metadata_file(true, false, 0, op, "m.json").expect_err("dir").message, "Artifact 元数据不是普通文件。");
    assert_eq!(validate_metadata_file(true, true, 1024 * 1024 + 1, op, "m.json").expect_err("large").message, "Artifact 元数据超过 1 MiB 上限。");
    assert!(check_document_type(Some("artifact"), op, "m.json").is_ok());
    assert!(check_document_type(Some("project"), op, "m.json").is_err());
    assert!(check_document_type(None, op, "m.json").is_err());
}

#[test]
fn imported_artifacts_declare_their_stored_hash() {
    let op = StorageOperation::ImportArtifact;
    let facts = |origin: Option<&str>, source_hash: Option<&str>| ArtifactSourceFacts {
        is_object: true,
        origin: origin.map(str::to_owned),
        source_content_hash: source_hash.map(str::to_owned),
    };
    assert!(validate_imported_source_hash(&facts(Some("generated"), None), None, op).is_ok());
    assert!(validate_imported_source_hash(&facts(Some("imported"), Some("sha256:a")), Some("sha256:a"), op).is_ok());
    assert_eq!(
        validate_imported_source_hash(&facts(Some("imported"), Some("sha256:a")), Some("sha256:b"), op).expect_err("drift").message,
        "导入 Artifact 的 sourceContentHash 与实际存储内容哈希不一致。"
    );
    assert_eq!(
        validate_imported_source_hash(&facts(Some("imported"), None), Some("sha256:b"), op).expect_err("undeclared").message,
        "导入 Artifact 缺少 sourceContentHash。"
    );
    let not_object = ArtifactSourceFacts { is_object: false, origin: None, source_content_hash: None };
    assert_eq!(validate_imported_source_hash(&not_object, None, op).expect_err("no source").message, "Artifact 缺少 source 对象。");
}

#[test]
fn artifact_identities_match_file_names_and_content_addresses() {
    let op = StorageOperation::GetArtifact;
    assert_eq!(
        check_read_identity("artifact_1", "artifact_1", &hash(), &content_uri(), op, "m.json").ok(),
        Some(content_uri())
    );
    let error = check_read_identity("artifact_1", "artifact_2", &hash(), &content_uri(), op, "m.json").expect_err("renamed");
    assert_eq!(error.code, StorageErrorCode::ArtifactConflict);
    let error = check_read_identity("artifact_1", "artifact_1", &hash(), "artifacts/objects/other", op, "m.json").expect_err("uri");
    assert_eq!(error.message, "Artifact uri 必须与 SHA-256 内容寻址路径完全一致。");
    assert!(check_read_identity("artifact_1", "artifact_1", "sha256:AB", &content_uri(), op, "m.json").is_err());

    let scan = StorageOperation::RebuildProjectIndex;
    assert!(check_scanned_identity(Some("artifact_1"), "artifact_1", &hash(), &content_uri(), scan, "m.json").is_ok());
    assert_eq!(check_scanned_identity(Some("artifact_1"), "bad id", &hash(), &content_uri(), scan, "m.json").expect_err("id").code, StorageErrorCode::InvalidArtifact);
    assert_eq!(check_scanned_identity(Some("artifact_2"), "artifact_1", &hash(), &content_uri(), scan, "m.json").expect_err("stem").code, StorageErrorCode::ArtifactConflict);
    assert_eq!(check_scanned_identity(Some("artifact_1"), "artifact_1", &hash(), "x", scan, "m.json").expect_err("uri").message, "Artifact uri 与内容哈希不一致。");
}

#[test]
fn metadata_scans_count_json_bytes_within_the_limit() {
    let op = StorageOperation::RebuildProjectIndex;
    let mut total = 0;
    assert!(count_metadata_file(&mut total, 10, Some("json"), 6, op, "a.json", "metadata").is_ok());
    assert_eq!(total, 6);
    let error = count_metadata_file(&mut total, 10, Some("json"), 5, op, "b.json", "metadata").expect_err("over");
    assert_eq!(error.message, "同步索引最多扫描 10 字节 Artifact 元数据。");
    let error = count_metadata_file(&mut total, 10, Some("txt"), 1, op, "c.txt", "metadata").expect_err("not json");
    assert_eq!(error.message, "Artifact 元数据目录只能包含 .json 文件。");
    assert_eq!(error.path.as_deref(), Some("c.txt"));
}

#[test]
fn portable_uris_are_relative_without_dot_components() {
    let op = StorageOperation::GetArtifact;
    let parts = portable_uri_components("artifacts/metadata/a.json", op).expect("portable");
    let parts: Vec<String> = parts.iter().map(|part| part.iter().collect()).collect();
    assert_eq!(parts, vec!["artifacts", "metadata", "a.json"]);
    for bad in ["", "/etc/passwd", "a\\b", "a//b", "a/./b", "a/../b", "a/"] {
        assert_eq!(portable_uri_components(bad, op).expect_err(bad).code, StorageErrorCode::InvalidArtifact);
    }
}
