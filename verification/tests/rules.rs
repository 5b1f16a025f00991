use narracut_core::artifact_graph::references_acyclic;
use narracut_core::digest::content_digest;
use narracut_core::job_index::{build_job_query, canonical_job_timestamp, format_utc_timestamp, SqlValue};
use narracut_core::media_error::{MediaErrorCode, MediaOperation};
use narracut_core::ordered_set::{insert_sorted, strings_strictly_ascending};
use narracut_core::project_error::{ProjectErrorCode, ProjectOperation};
use narracut_core::project_rules::{check_copy_limits, validate_directory_name, CopyEntryKind};
use narracut_core::renderer_rules::escape_html;
use narracut_core::segmentation::{split_sentences, tokenize_words};
use narracut_core::staged_source::{media_source_uri, parse_media_source_uri, safe_media_source_file_name};
use narracut_core::storage_error::{StorageErrorCode, StorageOperation};
use narracut_core::storage_requests::{indexed_job_row_fields, validate_list_indexed_jobs_options};
use narracut_core::storage_types::{IndexedJobStatusData, ListIndexedJobsOptions};
use narracut_core::timeline_assembly::stable_timeline_id;
use narracut_core::timing::partition_time_range;

const EMPTY_SHA256: &str = "e3b0c44298fc1c149afbf4c8996fb92427ae41e4649b934ca495991b7852b855";
const ABC_SHA256: &str = "ba7816bf8f01cfea414140de5dae2223b00361a396177a9cb410ff61f20015ad";

#[test]
fn content_digest_is_the_prefixed_lowercase_sha256() {
    assert_eq!(content_digest(b""), format!("sha256:{EMPTY_SHA256}"));
    assert_eq!(content_digest(b"abc"), format!("sha256:{ABC_SHA256}"));
}

#[test]
fn stable_timeline_id_hashes_the_request_bytes() {
    assert_eq!(stable_timeline_id(b"abc"), format!("timeline_{ABC_SHA256}"));
    assert_ne!(stable_timeline_id(b"abc"), stable_timeline_id(b"abd"));
}

#[test]
fn staged_source_uri_round_trips_through_the_parser() {
    let hash = format!("sha256:{ABC_SHA256}");
    let name = safe_media_source_file_name(Some("caption final.srt"), StorageOperation::ManageMediaSource)
        .expect("staged name");
    assert_eq!(name, "source-caption%20final.srt");
    let uri = media_source_uri(&hash, &name, StorageOperation::ManageMediaSource).expect("uri");
    assert_eq!(
        uri,
        format!("requests/media-sources/sha256/ba/{ABC_SHA256}/source-caption%20final.srt")
    );
    let (parsed_hash, parsed_name) =
        parse_media_source_uri(&uri, StorageOperation::ManageMediaSource).expect("parse");
    assert_eq!(parsed_hash, ABC_SHA256);
    assert_eq!(parsed_name, name);
}

#[test]
fn long_source_names_keep_a_bounded_stem_a_hash_suffix_and_the_extension() {
    let long = format!("{}.wav", "a".repeat(300));
    let name = safe_media_source_file_name(Some(&long), StorageOperation::ManageMediaSource)
        .expect("staged name");
    assert!(name.len() <= 200);
    assert!(name.starts_with("source-aaaa"));
    assert!(name.ends_with(".wav"));
    let short = format!("{}.wav", "a".repeat(299));
    let other = safe_media_source_file_name(Some(&short), StorageOperation::ManageMediaSource)
        .expect("staged name");
    assert_ne!(name, other, "the hash suffix tells long names apart");

    let error = safe_media_source_file_name(None, StorageOperation::ManageMediaSource)
        .expect_err("no Unicode file name");
    assert_eq!(error.code, StorageErrorCode::InvalidPath);
    let error = safe_media_source_file_name(Some(""), StorageOperation::ManageMediaSource)
        .expect_err("empty file name");
    assert_eq!(error.code, StorageErrorCode::InvalidPath);
}

#[test]
fn escaped_html_holds_no_markup() {
    assert_eq!(
        escape_html("<a href=\"x\">Tom & 'Jerry'</a>"),
        "&lt;a href=&quot;x&quot;&gt;Tom &amp; &#39;Jerry&#39;&lt;/a&gt;"
    );
    assert_eq!(escape_html("plain text"), "plain text");
}

#[test]
fn partition_spreads_spare_time_by_running_weight() {
    let ranges = partition_time_range(0, 100, &[1, 1, 2], MediaOperation::ImportCaptions)
        .expect("partition");
    assert_eq!(ranges, vec![(0, 25), (25, 50), (50, 100)]);
    let error = partition_time_range(10, 5, &[1], MediaOperation::ImportCaptions)
        .expect_err("reversed range");
    assert_eq!(error.code, MediaErrorCode::InvalidMedia);
    let error = partition_time_range(0, 2, &[1, 1, 1], MediaOperation::ImportCaptions)
        .expect_err("too short");
    assert_eq!(error.code, MediaErrorCode::ResourceLimitExceeded);
    let error = partition_time_range(0, 100, &[0], MediaOperation::ImportCaptions)
        .expect_err("zero weight");
    assert_eq!(error.code, MediaErrorCode::ResourceLimitExceeded);
}

#[test]
fn caption_text_segments_into_sentences_and_words() {
    assert_eq!(
        split_sentences("Hello there. 你好！ tail"),
        vec!["Hello there.", "你好！", "tail"]
    );
    assert_eq!(split_sentences("   "), vec!["   "]);
    assert_eq!(
        tokenize_words("It's a test, 你好。"),
        vec!["It's", "a", "test,", "你", "好。"]
    );
}

#[test]
fn reference_graph_acyclicity() {
    assert!(references_acyclic(&vec![vec![], vec![0], vec![0, 1]]));
    assert!(!references_acyclic(&vec![vec![1], vec![0]]));
    assert!(!references_acyclic(&vec![vec![0]]));
}

#[test]
fn ordered_sets_stay_strictly_ascending() {
    let mut set = Vec::new();
    for value in ["claim_b", "claim_a", "claim_b", "claim_c"] {
        insert_sorted(&mut set, value);
    }
    assert_eq!(set, vec!["claim_a", "claim_b", "claim_c"]);
    assert!(strings_strictly_ascending(&set));
    assert!(!strings_strictly_ascending(&["b".to_owned(), "a".to_owned()]));
}

#[test]
fn project_directory_names_are_single_safe_components() {
    for good in ["My Project", "  padded  ", "a ", "a.b", "CONSOLE"] {
        assert!(validate_directory_name(good, ProjectOperation::Create).is_ok(), "{good}");
    }
    for bad in ["", "   ", ".", "..", "a.", "CON", "con.txt", "LPT1", "CLOCK$", "a/b", "a\\b", "a\u{7}"] {
        let error = validate_directory_name(bad, ProjectOperation::Create).expect_err(bad);
        assert_eq!(error.code, ProjectErrorCode::InvalidName);
    }
    let too_long = "x".repeat(121);
    assert!(validate_directory_name(&too_long, ProjectOperation::Create).is_err());
}

#[test]
fn project_copy_limits_count_files_and_bytes() {
    let entries = [
        CopyEntryKind::Directory,
        CopyEntryKind::File { length: 10 },
        CopyEntryKind::File { length: 20 },
    ];
    assert_eq!(
        check_copy_limits(&entries, 2, 30, ProjectOperation::Copy, "project").ok(),
        Some((2, 30))
    );
    let error = check_copy_limits(&entries, 1, 30, ProjectOperation::Copy, "project")
        .expect_err("too many files");
    assert_eq!(error.code, ProjectErrorCode::CopyTooLarge);
    assert_eq!(error.message, "项目包含 2 个文件，超过当前有界复制上限 1 个；请等待任务队列接管。");
    let error = check_copy_limits(&entries, 2, 29, ProjectOperation::Copy, "project")
        .expect_err("too many bytes");
    assert_eq!(error.message, "项目大小为 30 字节，超过当前同步复制上限 29 字节；请等待任务队列接管。");
}

#[test]
fn utc_timestamps_have_a_fixed_canonical_form() {
    assert_eq!(
        format_utc_timestamp((2026, 7, 18, 9, 0, 0, 0)),
        "2026-07-18T09:00:00.000000000Z"
    );
    assert_eq!(
        format_utc_timestamp((-5, 1, 2, 3, 4, 5, 6)),
        "-005-01-02T03:04:05.000000006Z"
    );
    assert_eq!(
        canonical_job_timestamp("2026-07-18T09:00:00+02:00", "createdAt", StorageOperation::ListIndexedJobs)
            .expect("offset time"),
        "2026-07-18T07:00:00.000000000Z"
    );
    assert_eq!(
        canonical_job_timestamp("2026-07-18T09:00:00.5Z", "createdAt", StorageOperation::ListIndexedJobs)
            .expect("fractional time"),
        "2026-07-18T09:00:00.500000000Z"
    );
    let error = canonical_job_timestamp("yesterday", "createdAt", StorageOperation::ListIndexedJobs)
        .expect_err("not RFC 3339");
    assert_eq!(error.code, StorageErrorCode::InvalidRequest);
    assert!(error.message.starts_with("任务摘要 createdAt 不是 RFC 3339 时间："));
}

#[test]
fn job_query_binds_owner_states_and_limit_in_order() {
    let (sql, values) = build_job_query(&ListIndexedJobsOptions {
        owner_project_id: Some("project_001".to_owned()),
        statuses: vec![IndexedJobStatusData::Queued, IndexedJobStatusData::Failed],
        limit: 5,
    });
    assert_eq!(
        sql,
        "SELECT owner_project_id, job_id, stage_run_id, stage_id, status, attempt, progress, message, created_at, updated_at FROM job_summaries WHERE owner_project_id = ? AND status IN (?, ?) ORDER BY updated_at DESC, job_id ASC LIMIT ?"
    );
    assert_eq!(
        values,
        vec![
            SqlValue::Text("project_001".to_owned()),
            SqlValue::Text("queued".to_owned()),
            SqlValue::Text("failed".to_owned()),
            SqlValue::Integer(5),
        ]
    );
    let (sql, values) = build_job_query(&ListIndexedJobsOptions {
        owner_project_id: None,
        statuses: Vec::new(),
        limit: 1,
    });
    assert!(sql.ends_with("FROM job_summaries ORDER BY updated_at DESC, job_id ASC LIMIT ?"));
    assert_eq!(values, vec![SqlValue::Integer(1)]);
}

#[test]
fn job_status_names_round_trip() {
    for status in [
        IndexedJobStatusData::Queued,
        IndexedJobStatusData::Running,
        IndexedJobStatusData::Retrying,
        IndexedJobStatusData::Succeeded,
        IndexedJobStatusData::Failed,
        IndexedJobStatusData::Canceled,
    ] {
        assert_eq!(IndexedJobStatusData::parse(status.as_str()), Some(status));
    }
    assert_eq!(IndexedJobStatusData::parse("Queued"), None);
}

#[test]
fn job_listing_filters_are_bounded_and_distinct() {
    let options = |owner: Option<&str>, statuses: Vec<IndexedJobStatusData>, limit: u32| ListIndexedJobsOptions {
        owner_project_id: owner.map(str::to_owned),
        statuses,
        limit,
    };
    assert!(validate_list_indexed_jobs_options(&options(Some("p"), vec![IndexedJobStatusData::Queued], 200)).is_ok());
    let error = validate_list_indexed_jobs_options(&options(None, Vec::new(), 0)).expect_err("limit 0");
    assert_eq!(error.message, "任务摘要 limit 必须位于 1..=200。");
    assert!(validate_list_indexed_jobs_options(&options(None, Vec::new(), 201)).is_err());
    let error = validate_list_indexed_jobs_options(&options(Some("  "), Vec::new(), 5)).expect_err("blank owner");
    assert_eq!(error.message, "ownerProjectId 过滤器不能为空。");
    let error = validate_list_indexed_jobs_options(&options(
        None,
        vec![IndexedJobStatusData::Failed, IndexedJobStatusData::Queued, IndexedJobStatusData::Failed],
        5,
    ))
    .expect_err("repeated state");
    assert_eq!(error.code, StorageErrorCode::InvalidRequest);
    assert_eq!(error.message, "任务状态过滤器不能包含重复值。");
}

#[test]
fn job_rows_need_a_known_state_and_a_32_bit_attempt() {
    assert_eq!(
        indexed_job_row_fields("running", 3, "index.sqlite").ok(),
        Some((IndexedJobStatusData::Running, 3))
    );
    let error = indexed_job_row_fields("paused", 3, "index.sqlite").expect_err("unknown state");
    assert_eq!(error.code, StorageErrorCode::IndexUnavailable);
    assert_eq!(error.message, "任务索引包含未知状态。");
    let error = indexed_job_row_fields("running", -1, "index.sqlite").expect_err("negative attempt");
    assert_eq!(error.message, "任务索引包含非法 attempt。");
    assert!(indexed_job_row_fields("running", 4_294_967_296, "index.sqlite").is_err());
    assert!(indexed_job_row_fields("running", 4_294_967_295, "index.sqlite").is_ok());
}

use narracut_core::project_rules::{validate_legacy_v0, LegacyProjectFields};

#[test]
fn legacy_markers_need_their_texts_and_stages() {
    let text = |value: &str| Some(value.to_owned());
    let complete = LegacyProjectFields {
        is_object: true,
        project_id: text("project_001"),
        name: text("Demo"),
        workflow_definition_id: text("workflow_default"),
        created_at: text("2026-07-18T09:00:00Z"),
        updated_at: text("2026-07-18T09:00:00Z"),
        stages_is_array: true,
    };
    assert!(validate_legacy_v0(&complete, ProjectOperation::Migrate, "project.json").is_ok());
    let mut fields = complete.clone();
    fields.name = None;
    fields.updated_at = None;
    let error = validate_legacy_v0(&fields, ProjectOperation::Migrate, "project.json").expect_err("no name");
    assert_eq!(error.code, ProjectErrorCode::InvalidProject);
    assert_eq!(error.message, "项目字段 name 必须是字符串。");
    let mut fields = complete.clone();
    fields.stages_is_array = false;
    let error = validate_legacy_v0(&fields, ProjectOperation::Migrate, "project.json").expect_err("stages");
    assert_eq!(error.message, "旧版项目的 stages 必须是数组。");
    let mut fields = complete;
    fields.is_object = false;
    let error = validate_legacy_v0(&fields, ProjectOperation::Migrate, "project.json").expect_err("not object");
    assert_eq!(error.message, "旧版项目标识必须是 JSON 对象。");
}

use narracut_core::storage_requests::check_index_schema_version;

#[test]
fn index_schema_versions_are_known_or_refused() {
    for version in [0, 1, 2] {
        assert_eq!(check_index_schema_version(version, StorageOperation::RebuildProjectIndex, "index.sqlite").ok(), Some(version));
    }
    let error = check_index_schema_version(3, StorageOperation::RebuildProjectIndex, "index.sqlite").expect_err("newer");
    assert_eq!(error.code, StorageErrorCode::IndexMigrationFailed);
    assert_eq!(error.message, "SQLite 索引版本 3 高于当前支持版本 2。");
    let error = check_index_schema_version(-4, StorageOperation::RebuildProjectIndex, "index.sqlite").expect_err("unknown");
    assert_eq!(error.message, "没有从 SQLite 索引版本 -4 开始的迁移路径。");
}
