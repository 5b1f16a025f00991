use vstd::prelude::*;

use crate::storage_error::{opt_view, StorageErrorCode, StorageOperation, StorageServiceError};
use crate::storage_rules::{decimal, push_decimal};

verus! {

/// An entry of a project's cache that a cleanup removes.
#[derive(Debug, Clone, PartialEq, Eq)]
pub struct CacheEntry {
    pub path: String,
    pub is_directory: bool,
    pub depth: usize,
    pub byte_length: u64,
}

/// A storage error with an owned message at `path`.
fn error_at(code: StorageErrorCode, operation: StorageOperation, message: String, path: &str) -> (error:
    StorageServiceError)
    ensures
        error.code == code,
        error.operation == operation,
        error.message@ == message@,
        opt_view(error.path) == Some(path@),
        error.artifact_id is None,
{
    StorageServiceError { code, operation, message, path: Some(path.to_owned()), artifact_id: None }
}

/// Checks the cache directory itself before it is scanned: it may be
/// missing (nothing to clean), but if present it is a directory and no link.
pub fn validate_cache_directory(is_link: bool, is_dir: bool, operation: StorageOperation, cache_dir: &str) -> (result:
    Result<(), StorageServiceError>)
    ensures
        result is Ok <==> !is_link && is_dir,
        result matches Err(error) ==> {
            &&& error.operation == operation
            &&& opt_view(error.path) == Some(cache_dir@)
            &&& if is_link {
                error.code == StorageErrorCode::PathContainsSymlink && error.message@
                    == "cache 目录不能是符号链接或重解析点。"@
            } else {
                error.code == StorageErrorCode::InvalidPath && error.message@ == "cache 路径不是目录。"@
            }
        },
{
    if is_link {
        return Err(
            StorageServiceError::new(
                StorageErrorCode::PathContainsSymlink,
                operation,
                "cache 目录不能是符号链接或重解析点。",
            ).at_path(cache_dir),
        );
    }
    if !is_dir {
        return Err(
            StorageServiceError::new(StorageErrorCode::InvalidPath, operation, "cache 路径不是目录。").at_path(
                cache_dir,
            ),
        );
    }
    Ok(())
}

/// The limits of one synchronous cache cleanup.
#[derive(Debug, Clone, Copy, PartialEq, Eq, Structural)]
pub struct CacheLimits {
    pub max_entries: usize,
    pub max_bytes: u64,
    pub max_depth: usize,
}

/// The total length of the entries.
pub open spec fn entries_bytes(entries: Seq<CacheEntry>) -> int
    decreases entries.len(),
{
    if entries.len() == 0 {
        0
    } else {
        entries_bytes(entries.drop_last()) + entries.last().byte_length
    }
}

/// A cache scan in progress: the entries found so far and their total length.
#[derive(Debug, Clone, PartialEq, Eq)]
pub struct CacheScan {
    pub entries: Vec<CacheEntry>,
    pub bytes: u64,
}

/// The scan is consistent and within the limits.
pub open spec fn scan_within(scan: CacheScan, limits: CacheLimits) -> bool {
    &&& scan.bytes == entries_bytes(scan.entries@)
    &&& scan.entries@.len() <= limits.max_entries
    &&& scan.bytes <= limits.max_bytes
}

/// What the file system says of one entry found under a directory.
#[derive(Debug, Clone, Copy, PartialEq, Eq, Structural)]
pub struct CacheEntryFacts {
    pub is_link: bool,
    pub is_dir: bool,
    pub is_file: bool,
    pub length: u64,
}

/// The length an entry counts for: a directory counts nothing.
pub open spec fn counted_length(facts: CacheEntryFacts) -> int {
    if facts.is_dir {
        0
    } else {
        facts.length as int
    }
}

/// Why an entry at `depth` stops the scan, if it does: a link, a depth past
/// the limit, something that is neither a file nor a directory, a byte count
/// that overflows, or more entries or bytes than the limits allow.
pub open spec fn entry_refusal(
    scan: CacheScan,
    limits: CacheLimits,
    facts: CacheEntryFacts,
    depth: int,
) -> Option<(StorageErrorCode, Seq<char>, bool)> {
    let bytes = scan.bytes + counted_length(facts);
    if facts.is_link {
        Some((StorageErrorCode::PathContainsSymlink, "cache 条目不能是符号链接或重解析点。"@, false))
    } else if depth > limits.max_depth {
        Some(
            (
                StorageErrorCode::ScanLimitExceeded,
                "cache 同步清理最多扫描 "@ + decimal(limits.max_depth as nat) + " 层。"@,
                false,
            ),
        )
    } else if !facts.is_dir && !facts.is_file {
        Some((StorageErrorCode::InvalidPath, "cache 中包含非普通文件。"@, false))
    } else if bytes > u64::MAX {
        Some((StorageErrorCode::ScanLimitExceeded, "cache 字节数溢出。"@, false))
    } else if scan.entries@.len() + 1 > limits.max_entries || bytes > limits.max_bytes {
        Some(
            (
                StorageErrorCode::ScanLimitExceeded,
                "cache 同步清理上限为 "@ + decimal(limits.max_entries as nat) + " 个条目 / "@ + decimal(
                    limits.max_bytes as nat,
                ) + " 字节。"@,
                true,
            ),
        )
    } else {
        None
    }
}

impl CacheScan {
    /// A scan that has found nothing yet.
    pub fn new() -> (scan: Self)
        ensures
            scan.entries@.len() == 0,
            scan.bytes == 0,
    {
        CacheScan { entries: Vec::new(), bytes: 0 }
    }

    /// Takes in an entry found at `path` under a directory at `parent_depth`
    /// and says whether to descend into it; a refusal names the entry, or the
    /// cache directory when a limit is exceeded.
    pub fn take_entry(
        &mut self,
        path: &str,
        parent_depth: usize,
        facts: CacheEntryFacts,
        limits: CacheLimits,
        operation: StorageOperation,
        cache_dir: &str,
    ) -> (result: Result<bool, StorageServiceError>)
        requires
            scan_within(*old(self), limits),
            parent_depth < usize::MAX,
        ensures
            result is Ok <==> entry_refusal(*old(self), limits, facts, parent_depth + 1) is None,
            result matches Ok(descend) ==> {
                &&& descend == facts.is_dir
                &&& scan_within(*final(self), limits)
                &&& final(self).entries@ == old(self).entries@.push(
                    CacheEntry {
                        path: final(self).entries@.last().path,
                        is_directory: facts.is_dir,
                        depth: (parent_depth + 1) as usize,
                        byte_length: counted_length(facts) as u64,
                    },
                )
                &&& final(self).entries@.last().path@ == path@
            },
            result matches Err(error) ==> {
                let refusal = entry_refusal(*old(self), limits, facts, parent_depth + 1).unwrap();
                &&& error.code == refusal.0
                &&& error.message@ == refusal.1
                &&& error.operation == operation
                &&& opt_view(error.path) == Some(
                    if refusal.2 {
                        cache_dir@
                    } else {
                        path@
                    },
                )
                &&& error.artifact_id is None
            },
    {
        if facts.is_link {
            return Err(
                StorageServiceError::new(
                    StorageErrorCode::PathContainsSymlink,
                    operation,
                    "cache 条目不能是符号链接或重解析点。",
                ).at_path(path),
            );
        }
        let depth = parent_depth + 1;
        if depth > limits.max_depth {
            let mut message = String::from_str("cache 同步清理最多扫描 ");
            push_decimal(&mut message, limits.max_depth as u64);
            message.append(" 层。");
            return Err(error_at(StorageErrorCode::ScanLimitExceeded, operation, message, path));
        }
        let length: u64 = if facts.is_dir {
            0
        } else if facts.is_file {
            facts.length
        } else {
            return Err(
                StorageServiceError::new(
                    StorageErrorCode::InvalidPath,
                    operation,
                    "cache 中包含非普通文件。",
                ).at_path(path),
            );
        };
        let bytes = match self.bytes.checked_add(length) {
            Some(total) => total,
            None => {
                return Err(
                    StorageServiceError::new(
                        StorageErrorCode::ScanLimitExceeded,
                        operation,
                        "cache 字节数溢出。",
                    ).at_path(path),
                );
            },
        };
        if self.entries.len() >= limits.max_entries || bytes > limits.max_bytes {
            let mut message = String::from_str("cache 同步清理上限为 ");
            push_decimal(&mut message, limits.max_entries as u64);
            message.append(" 个条目 / ");
            push_decimal(&mut message, limits.max_bytes);
            message.append(" 字节。");
            return Err(error_at(StorageErrorCode::ScanLimitExceeded, operation, message, cache_dir));
        }
        let ghost before = self.entries@;
        self.entries.push(
            CacheEntry {
                path: path.to_owned(),
                is_directory: facts.is_dir,
                depth,
                byte_length: length,
            },
        );
        self.bytes = bytes;
        assert(self.entries@.drop_last() =~= before);
        Ok(facts.is_dir)
    }
}

/// `a` is removed no later than `b`: deeper entries first, and at the same
/// depth files before directories.
pub open spec fn removed_before(a: CacheEntry, b: CacheEntry) -> bool {
    a.depth > b.depth || (a.depth == b.depth && (!a.is_directory || b.is_directory))
}

/// The order in which entries are removed.
pub open spec fn removal_ordered(entries: Seq<CacheEntry>) -> bool {
    forall|i: int, j: int| 0 <= i < j < entries.len() ==> removed_before(#[trigger] entries[i], #[trigger] entries[j])
}

/// The entries in the order they are removed: deepest first, and at one
/// depth files before directories, so that every directory is empty when it
/// is removed. The order is otherwise that of the scan.
pub fn removal_order(entries: Vec<CacheEntry>) -> (ordered: Vec<CacheEntry>)
    ensures
        ordered@.to_multiset() == entries@.to_multiset(),
        removal_ordered(ordered@),
        forall|i: int, j: int|
            0 <= i < j < ordered@.len() ==> (#[trigger] ordered@[i]).depth >= (#[trigger] ordered@[j]).depth,
{
    let mut ordered: Vec<CacheEntry> = Vec::new();
    let mut k: usize = 0;
    let n = entries.len();
    proof {
        assert(entries@.take(0) =~= Seq::<CacheEntry>::empty());
        assert(ordered@ =~= Seq::<CacheEntry>::empty());
        broadcast use vstd::multiset::group_multiset_axioms;
        assert(Seq::<CacheEntry>::empty().to_multiset() =~= vstd::multiset::Multiset::<CacheEntry>::empty()) by {
            broadcast use vstd::seq_lib::group_to_multiset_ensures;
        }
    }
    while k < n
        invariant
            n == entries@.len(),
            0 <= k <= n,
            ordered@.to_multiset() == entries@.take(k as int).to_multiset(),
            removal_ordered(ordered@),
        decreases n - k,
    {
        let entry = copy_entry(&entries[k]);
        let ghost e = entries@[k as int];
        let mut p: usize = 0;
        while p < ordered.len() && removed_before_exec(&ordered[p], &entry)
            invariant
                0 <= p <= ordered@.len(),
                removal_ordered(ordered@),
                forall|q: int| 0 <= q < p ==> removed_before(#[trigger] ordered@[q], entry),
            decreases ordered@.len() - p,
        {
            p = p + 1;
        }
        let ghost before = ordered@;
        ordered.insert(p, entry);
        proof {
            vstd::seq_lib::to_multiset_insert(before, p as int, e);
            assert(entries@.take(k + 1) =~= entries@.take(k as int).push(e));
            vstd::seq_lib::to_multiset_build(entries@.take(k as int), e);
            assert forall|i: int, j: int| 0 <= i < j < ordered@.len() implies removed_before(
                #[trigger] ordered@[i],
                #[trigger] ordered@[j],
            ) by {
                if i < p && j == p {
                } else if i < p && j > p {
                    assert(ordered@[j] == before[j - 1]);
                } else if i == p && j > p {
                    assert(ordered@[j] == before[j - 1]);
                    if p < before.len() {
                        assert(!removed_before(before[p as int], entry));
                        assert(removed_before(before[p as int], before[j - 1]) || j - 1 == p);
                    }
                } else if i > p {
                    assert(ordered@[i] == before[i - 1]);
                    assert(ordered@[j] == before[j - 1]);
                }
            }
        }
        k = k + 1;
    }
    assert(entries@.take(n as int) =~= entries@);
    ordered
}

/// A copy of an entry.
fn copy_entry(entry: &CacheEntry) -> (copy: CacheEntry)
    ensures
        copy == *entry,
{
    CacheEntry {
        path: entry.path.clone(),
        is_directory: entry.is_directory,
        depth: entry.depth,
        byte_length: entry.byte_length,
    }
}

/// Decides [`removed_before`].
fn removed_before_exec(a: &CacheEntry, b: &CacheEntry) -> (result: bool)
    ensures
        result == removed_before(*a, *b),
{
    a.depth > b.depth || (a.depth == b.depth && (!a.is_directory || b.is_directory))
}


/// The entry is still what the scan found: no link, of the same kind, and a
/// file of the same length.
pub open spec fn entry_unchanged(entry: CacheEntry, facts: CacheEntryFacts) -> bool {
    &&& !facts.is_link
    &&& facts.is_dir == entry.is_directory
    &&& (entry.is_directory || (facts.is_file && facts.length == entry.byte_length))
}

/// Refuses to remove an entry that changed since the scan.
pub fn check_entry_unchanged(entry: &CacheEntry, facts: CacheEntryFacts, operation: StorageOperation) -> (result:
    Result<(), StorageServiceError>)
    ensures
        result is Ok <==> entry_unchanged(*entry, facts),
        result matches Err(error) ==> {
            &&& error.code == StorageErrorCode::CacheCleanupFailed
            &&& error.operation == operation
            &&& error.message@ == "cache 条目在扫描后发生变化，已停止清理。"@
            &&& opt_view(error.path) == Some(entry.path@)
        },
{
    if facts.is_link || facts.is_dir != entry.is_directory || (!entry.is_directory && (!facts.is_file
        || facts.length != entry.byte_length)) {
        return Err(
            StorageServiceError::new(
                StorageErrorCode::CacheCleanupFailed,
                operation,
                "cache 条目在扫描后发生变化，已停止清理。",
            ).at_path(entry.path.as_str()),
        );
    }
    Ok(())
}

/// The refusal when removing an entry failed for `reason`.
pub fn removal_failure(entry: &CacheEntry, reason: &str, operation: StorageOperation) -> (error:
    StorageServiceError)
    ensures
        error.code == StorageErrorCode::CacheCleanupFailed,
        error.operation == operation,
        error.message@ == "移除 cache 条目失败："@ + reason@,
        opt_view(error.path) == Some(entry.path@),
{
    let mut message = String::from_str("移除 cache 条目失败：");
    message.append(reason);
    error_at(StorageErrorCode::CacheCleanupFailed, operation, message, entry.path.as_str())
}

} // verus!
