use narracut_core::artifact_checks::admit_metadata_entry;
use narracut_core::cache_rules::{removal_order, CacheEntry, CacheEntryFacts, CacheLimits, CacheScan};
use narracut_core::source_copy::{check_source_unchanged, count_copied_bytes};
use narracut_core::storage_error::{StorageErrorCode, StorageOperation, StorageServiceError};

fn file(length: u64) -> CacheEntryFacts {
    CacheEntryFacts {
        is_link: false,
        is_dir: false,
        is_file: true,
        length,
    }
}

fn scan_files(files: &[(&str, u64)], limits: CacheLimits) -> Result<CacheScan, StorageServiceError> {
    let mut scan = CacheScan::new();
    for (name, length) in files {
        let path = format!("cache/{name}");
        scan.take_entry(
            &path,
            0,
            file(*length),
            limits,
            StorageOperation::CleanProjectCache,
            "cache",
        )?;
    }
    Ok(scan)
}

#[test]
fn cache_limits_fail_before_any_entry_is_removed() {
    let files = [("one", 1), ("two", 2), ("three", 3)];
    let entry_error = scan_files(
        &files,
        CacheLimits {
            max_entries: 2,
            max_bytes: 100,
            max_depth: 8,
        },
    )
    .expect_err("entry limit must fail");
    assert_eq!(entry_error.code, StorageErrorCode::ScanLimitExceeded);
    assert_eq!(entry_error.path.as_deref(), Some("cache"));
    assert_eq!(entry_error.message, "cache 同步清理上限为 2 个条目 / 100 字节。");

    let byte_error = scan_files(
        &files,
        CacheLimits {
            max_entries: 10,
            max_bytes: 5,
            max_depth: 8,
        },
    )
    .expect_err("byte limit must fail");
    assert_eq!(byte_error.code, StorageErrorCode::ScanLimitExceeded);

    let complete = scan_files(
        &files,
        CacheLimits {
            max_entries: 3,
            max_bytes: 6,
            max_depth: 8,
        },
    )
    .expect("scan within limits");
    assert_eq!(complete.entries.len(), 3);
    assert_eq!(complete.bytes, 6);
}

#[test]
fn cache_scan_refuses_links_depth_and_special_files() {
    let limits = CacheLimits {
        max_entries: 10,
        max_bytes: 100,
        max_depth: 1,
    };
    let mut scan = CacheScan::new();
    let link = CacheEntryFacts {
        is_link: true,
        is_dir: false,
        is_file: false,
        length: 0,
    };
    let error = scan
        .take_entry("cache/link", 0, link, limits, StorageOperation::CleanProjectCache, "cache")
        .expect_err("link");
    assert_eq!(error.code, StorageErrorCode::PathContainsSymlink);
    assert_eq!(error.path.as_deref(), Some("cache/link"));

    let error = scan
        .take_entry("cache/a/b", 1, file(1), limits, StorageOperation::CleanProjectCache, "cache")
        .expect_err("too deep");
    assert_eq!(error.code, StorageErrorCode::ScanLimitExceeded);
    assert_eq!(error.message, "cache 同步清理最多扫描 1 层。");

    let fifo = CacheEntryFacts {
        is_link: false,
        is_dir: false,
        is_file: false,
        length: 0,
    };
    let error = scan
        .take_entry("cache/fifo", 0, fifo, limits, StorageOperation::CleanProjectCache, "cache")
        .expect_err("special file");
    assert_eq!(error.code, StorageErrorCode::InvalidPath);

    let directory = CacheEntryFacts {
        is_link: false,
        is_dir: true,
        is_file: false,
        length: 4096,
    };
    let descend = scan
        .take_entry("cache/d", 0, directory, limits, StorageOperation::CleanProjectCache, "cache")
        .expect("directory");
    assert!(descend);
    assert_eq!(scan.bytes, 0);
}

#[test]
fn cache_removal_order_is_deepest_first_with_files_before_directories() {
    let entry = |path: &str, is_directory: bool, depth: usize| CacheEntry {
        path: path.to_owned(),
        is_directory,
        depth,
        byte_length: 0,
    };
    let ordered = removal_order(vec![
        entry("cache/a", true, 1),
        entry("cache/b.txt", false, 1),
        entry("cache/a/c", true, 2),
        entry("cache/a/c/d.txt", false, 3),
        entry("cache/a/e.txt", false, 2),
    ]);
    let paths: Vec<&str> = ordered.iter().map(|entry| entry.path.as_str()).collect();
    assert_eq!(
        paths,
        vec!["cache/a/c/d.txt", "cache/a/e.txt", "cache/a/c", "cache/b.txt", "cache/a"]
    );
}

#[test]
fn metadata_scan_stops_at_the_first_entry_over_the_limit() {
    let names = ["one.json", "two.json", "three.json"];
    let mut admitted = 0;
    let mut failure = None;
    for _ in names {
        match admit_metadata_entry(admitted, 2, StorageOperation::RebuildProjectIndex, "metadata") {
            Ok(()) => admitted += 1,
            Err(error) => {
                failure = Some(error);
                break;
            }
        }
    }
    let error = failure.expect("third entry must exceed the bounded scan");
    assert_eq!(admitted, 2);
    assert_eq!(error.code, StorageErrorCode::ScanLimitExceeded);
    assert_eq!(error.message, "单项目同步索引最多处理 2 个 Artifact。");
}

#[test]
fn staged_source_copy_rejects_changes_after_the_inspected_snapshot() {
    let inspected_length = b"original".len() as u64;
    let changed = b"changed after inspection".len() as u64;
    let copied = count_copied_bytes(0, changed, 1024, StorageOperation::ManageMediaSource, "source.wav")
        .expect("within the import limit");
    assert_eq!(copied, changed);
    let error = check_source_unchanged(
        false,
        true,
        changed,
        true,
        copied,
        inspected_length,
        StorageOperation::ManageMediaSource,
        "source.wav",
    )
    .expect_err("snapshot drift must fail after the final metadata check");
    assert_eq!(error.code, StorageErrorCode::SourceChanged);

    assert!(check_source_unchanged(
        false,
        true,
        8,
        true,
        8,
        inspected_length,
        StorageOperation::ManageMediaSource,
        "source.wav"
    )
    .is_ok());
    assert!(check_source_unchanged(
        false,
        true,
        8,
        false,
        8,
        inspected_length,
        StorageOperation::ManageMediaSource,
        "source.wav"
    )
    .is_err());
}

#[test]
fn source_copy_counts_bytes_within_the_limit() {
    let error = count_copied_bytes(1000, 25, 1024, StorageOperation::ManageMediaSource, "big.wav")
        .expect_err("over the limit");
    assert_eq!(error.code, StorageErrorCode::SourceTooLarge);
    assert_eq!(error.message, "同步导入上限为 1024 字节。");
    let error = count_copied_bytes(u64::MAX, 1, u64::MAX, StorageOperation::ManageMediaSource, "big.wav")
        .expect_err("overflow");
    assert_eq!(error.message, "待导入文件长度溢出。");
    assert_eq!(
        count_copied_bytes(1000, 24, 1024, StorageOperation::ManageMediaSource, "ok.wav").ok(),
        Some(1024)
    );
}

use narracut_core::source_copy::{check_content_metadata, check_existing_content, check_source_metadata, count_read_bytes};

#[test]
fn bounded_content_reads_check_presence_kind_and_size() {
    let op = StorageOperation::GetArtifact;
    assert!(check_content_metadata(true, true, 10, 10, op, "blob").is_ok());
    let error = check_content_metadata(false, false, 0, 10, op, "blob").expect_err("missing");
    assert_eq!((error.code, error.message.as_str()), (StorageErrorCode::ContentCorrupt, "Artifact 内容不存在。"));
    let error = check_content_metadata(true, false, 0, 10, op, "blob").expect_err("directory");
    assert_eq!(error.message, "Artifact 内容不是普通文件。");
    let error = check_content_metadata(true, true, 11, 10, op, "blob").expect_err("too large");
    assert_eq!(error.code, StorageErrorCode::ArtifactTooLarge);
    assert_eq!(error.message, "同步 Artifact 读取上限为 10 字节。");
    assert_eq!(count_read_bytes(4, 6, 10, op, "blob").ok(), Some(10));
    assert_eq!(count_read_bytes(4, 7, 10, op, "blob").expect_err("over").code, StorageErrorCode::ArtifactTooLarge);
    assert_eq!(count_read_bytes(u64::MAX, 1, u64::MAX, op, "blob").expect_err("overflow").code, StorageErrorCode::ContentCorrupt);
    assert!(check_existing_content("sha256:a", 3, "sha256:a", 3, op, "blob").is_ok());
    let error = check_existing_content("sha256:a", 3, "sha256:b", 3, op, "blob").expect_err("other hash");
    assert_eq!(error.code, StorageErrorCode::ContentCorrupt);
    assert!(check_existing_content("sha256:a", 4, "sha256:a", 3, op, "blob").is_err());
}

#[test]
fn source_files_must_exist_and_be_regular_files() {
    let op = StorageOperation::ManageMediaSource;
    assert!(check_source_metadata(true, false, true, op, "a.wav").is_ok());
    assert_eq!(check_source_metadata(false, false, false, op, "a.wav").expect_err("missing").code, StorageErrorCode::SourceNotFound);
    assert_eq!(check_source_metadata(true, true, true, op, "a.wav").expect_err("link").code, StorageErrorCode::PathContainsSymlink);
    assert_eq!(check_source_metadata(true, false, false, op, "a.wav").expect_err("directory").code, StorageErrorCode::InvalidPath);
}

use narracut_core::path_walk::{check_path_layout, check_path_step, check_project_root};

#[test]
fn project_path_walks_refuse_links_and_file_parents() {
    let op = StorageOperation::GetArtifact;
    assert!(check_project_root(false, true, op, "/p").is_ok());
    assert_eq!(check_project_root(true, true, op, "/p").expect_err("link").code, StorageErrorCode::PathContainsSymlink);
    assert_eq!(check_project_root(false, false, op, "/p").expect_err("file").message, "项目根路径不是目录。");
    assert!(check_path_layout(true, true, op, "/p/a").is_ok());
    assert_eq!(check_path_layout(false, true, op, "/q/a").expect_err("outside").message, "Artifact 路径不在项目根目录内。");
    assert_eq!(check_path_layout(true, false, op, "/p/../a").expect_err("dots").message, "Artifact 路径包含非法组件。");
    assert!(check_path_step(false, true, false, op, "/p/a").is_ok());
    assert!(check_path_step(false, false, true, op, "/p/a/b.json").is_ok());
    assert_eq!(check_path_step(true, false, true, op, "/p/a").expect_err("link").code, StorageErrorCode::PathContainsSymlink);
    let error = check_path_step(false, false, false, op, "/p/a").expect_err("file parent");
    assert_eq!(error.message, "Artifact 路径的中间组件不是目录。");
    assert_eq!(error.path.as_deref(), Some("/p/a"));
}
