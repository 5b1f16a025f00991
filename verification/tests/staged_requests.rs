use narracut_core::staged_requests::{validate_resolve_staged_request, validate_stage_request};
use narracut_core::storage_error::{StorageErrorCode, StorageOperation};
use narracut_core::storage_types::{ResolveStagedMediaSourceOptions, StageMediaSourceFileOptions};

const LIMIT: u64 = 64 * 1024 * 1024;

fn hash() -> String {
    format!("ab{}", "c".repeat(62))
}

fn resolve() -> ResolveStagedMediaSourceOptions {
    ResolveStagedMediaSourceOptions {
        project_path: "/projects/demo".to_owned(),
        expected_project_id: "project_001".to_owned(),
        staged_source_uri: format!("requests/media-sources/sha256/ab/{}/source-caption%20final.srt", hash()),
        expected_content_hash: format!("sha256:{}", hash()),
        expected_byte_length: 1024,
        max_bytes: 4096,
    }
}

#[test]
fn resolve_request_gives_the_staged_name() {
    assert_eq!(validate_resolve_staged_request(&resolve(), LIMIT).expect("valid"), "source-caption%20final.srt");
}

#[test]
fn resolve_request_refusals_come_in_order() {
    let mut over = resolve();
    over.max_bytes = LIMIT + 1;
    over.expected_content_hash = "md5:x".to_owned();
    let error = validate_resolve_staged_request(&over, LIMIT).expect_err("limit first");
    assert_eq!(error.code, StorageErrorCode::InvalidRequest);
    assert_eq!(error.operation, StorageOperation::ManageMediaSource);
    assert_eq!(error.message, "媒体源同步上限必须位于 1..=67108864 字节。");

    let mut zero = resolve();
    zero.max_bytes = 0;
    assert_eq!(validate_resolve_staged_request(&zero, LIMIT).expect_err("zero").message, "媒体源同步上限必须位于 1..=67108864 字节。");

    let mut format = resolve();
    format.expected_content_hash = "md5:x".to_owned();
    assert_eq!(validate_resolve_staged_request(&format, LIMIT).expect_err("format").message, "媒体源 SHA-256 必须使用 sha256:<hex> 格式。");

    let mut upper = resolve();
    upper.expected_content_hash = format!("sha256:{}", hash().to_uppercase());
    assert_eq!(validate_resolve_staged_request(&upper, LIMIT).expect_err("upper").message, "媒体源 SHA-256 必须是 64 位小写十六进制。");

    let mut long = resolve();
    long.expected_byte_length = 4097;
    let error = validate_resolve_staged_request(&long, LIMIT).expect_err("declared length");
    assert_eq!(error.code, StorageErrorCode::SourceTooLarge);
    assert_eq!(error.message, "媒体源声明长度超过 resolver 上限。");

    let mut layout = resolve();
    layout.staged_source_uri = format!("requests/media-sources/.tmp/ab/{}/source.srt", hash());
    let error = validate_resolve_staged_request(&layout, LIMIT).expect_err("layout");
    assert_eq!(error.code, StorageErrorCode::InvalidPath);
    assert_eq!(error.message, "staged 媒体源 URI 不符合版本化 content-addressed 布局。");

    let mut other = resolve();
    other.expected_content_hash = format!("sha256:{}", "d".repeat(64));
    let error = validate_resolve_staged_request(&other, LIMIT).expect_err("other hash");
    assert_eq!(error.code, StorageErrorCode::ContentCorrupt);
    assert_eq!(error.message, "媒体源 URI 与确认的 SHA-256 不一致。");
    assert_eq!(error.path, None);
}

#[test]
fn stage_request_checks_limit_then_confirmed_hash() {
    let mut request = StageMediaSourceFileOptions {
        project_path: "/projects/demo".to_owned(),
        expected_project_id: "project_001".to_owned(),
        source_path: "/tmp/voice.wav".to_owned(),
        expected_content_hash: None,
        max_bytes: LIMIT,
    };
    assert!(validate_stage_request(&request, LIMIT).is_ok());
    request.expected_content_hash = Some("sha256:xyz".to_owned());
    assert_eq!(validate_stage_request(&request, LIMIT).expect_err("hash").message, "媒体源 SHA-256 必须是 64 位小写十六进制。");
    request.max_bytes = LIMIT + 1;
    assert_eq!(validate_stage_request(&request, LIMIT).expect_err("limit").code, StorageErrorCode::InvalidRequest);
}
