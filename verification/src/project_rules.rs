use vstd::prelude::*;

use crate::media_rules::{ascii_upper_text, reserved_device_stem, reserved_stem, upper_stem};
use crate::project_error::{ProjectErrorCode, ProjectOperation, ProjectServiceError};
use crate::storage_error::opt_view;
use crate::storage_rules::{decimal, push_decimal};
use crate::text::{chars_of, is_control, is_control_spec, string_from_chars, trim_chars, trim_spec};
use crate::uri::{chars_equal, lemma_split_join, lemma_split_single, split_spec};
use crate::text::{is_whitespace_spec, trim_end_spec, trim_start_spec};

verus! {

/// The project format version this library reads and writes.
pub const CURRENT_PROJECT_FORMAT_VERSION: u32 = 1;

/// The version of the project command results.
pub const PROJECT_COMMAND_API_VERSION: &'static str = "1.0.0";

/// The largest project marker file read, in bytes.
pub const MAX_MARKER_BYTES: u64 = 1024 * 1024;

/// The name of the one migration step from format 0 to format 1.
pub const MIGRATION_V0_TO_V1: &'static str = "project-v0-to-v1";

/// The longest project directory name, in characters.
pub const MAX_DIRECTORY_NAME_CHARS: usize = 120;

/// A character that a project directory name may not hold.
pub open spec fn forbidden_directory_char(c: char) -> bool {
    is_control_spec(c) || c == '/' || c == '\\' || c == ':' || c == '*' || c == '?' || c == '"'
        || c == '<' || c == '>' || c == '|'
}

/// Decides [`forbidden_directory_char`].
fn is_forbidden_directory_char(c: char) -> (result: bool)
    ensures
        result == forbidden_directory_char(c),
{
    is_control(c) || c == '/' || c == '\\' || c == ':' || c == '*' || c == '?' || c == '"' || c
        == '<' || c == '>' || c == '|'
}

/// A safe project directory name, once trimmed: 1 to 120 characters, no
/// control or path-special character, a single path component that does not
/// end with a dot or a space, and no Windows device name before its first dot.
pub open spec fn directory_name_acceptable(name: Seq<char>) -> bool {
    let trimmed = trim_spec(name);
    let stem = ascii_upper_text(split_spec(trimmed, '.')[0]);
    &&& 0 < trimmed.len() <= MAX_DIRECTORY_NAME_CHARS
    &&& forall|i: int| 0 <= i < trimmed.len() ==> !forbidden_directory_char(#[trigger] trimmed[i])
    &&& trimmed != "."@ && trimmed != ".."@
    &&& trimmed.last() != '.' && trimmed.last() != ' '
    &&& !reserved_device_stem(stem) && stem != "CLOCK$"@
}

/// The only characters a project directory name may not hold are control
/// characters and / \ : * ? " < > |: for every character `c`, the name
/// "project", `c`, "x" is acceptable exactly when `c` is none of those (so
/// "project-x" is a valid name, and "project/x" is not).
pub proof fn lemma_directory_name_characters(c: char)
    ensures
        directory_name_acceptable("project"@ + seq![c] + "x"@) <==> !(is_control_spec(c) || c == '/'
            || c == '\\' || c == ':' || c == '*' || c == '?' || c == '"' || c == '<' || c == '>' || c
            == '|'),
{
    reveal_strlit("project");
    reveal_strlit("x");
    reveal_strlit(".");
    reveal_strlit("..");
    reveal_strlit("CON");
    reveal_strlit("PRN");
    reveal_strlit("AUX");
    reveal_strlit("NUL");
    reveal_strlit("CLOCK$");
    let name = "project"@ + seq![c] + "x"@;
    assert(name.len() == 9);
    assert(name[0] == 'p');
    assert(name[8] == 'x');
    assert(name[7] == c);
    assert(!is_whitespace_spec('p'));
    assert(!is_whitespace_spec('x'));
    assert(trim_start_spec(name) == name);
    assert(trim_end_spec(name) == name);
    assert(trim_spec(name) == name);
    assert forall|i: int| 0 <= i < 9 && i != 7 implies !forbidden_directory_char(#[trigger] name[i]) by {
        assert('a' <= name[i] <= 'z');
    }
    let stem = split_spec(name, '.')[0];
    if c == '.' {
        let head = "project"@;
        assert forall|i: int| 0 <= i < head.len() implies head[i] != '.' by {}
        assert forall|i: int| 0 <= i < "x"@.len() implies "x"@[i] != '.' by {}
        lemma_split_single(head, '.');
        lemma_split_join(head, "x"@, '.');
        assert(head.push('.') + "x"@ =~= name);
        assert(stem == head);
        assert(ascii_upper_text(stem).len() == 7);
    } else {
        assert forall|i: int| 0 <= i < name.len() implies name[i] != '.' by {
            if i != 7 {
                assert('a' <= name[i] <= 'z');
            }
        }
        lemma_split_single(name, '.');
        assert(stem == name);
        assert(ascii_upper_text(stem).len() == 9);
    }
    let upper = ascii_upper_text(stem);
    assert(!reserved_device_stem(upper));
    assert(upper != "CLOCK$"@);
    assert(name != "."@);
    assert(name != ".."@);
    if is_control_spec(c) || c == '/' || c == '\\' || c == ':' || c == '*' || c == '?' || c == '"' || c
        == '<' || c == '>' || c == '|' {
        assert(forbidden_directory_char(trim_spec(name)[7]));
    }
}

/// Checks the name of a new project directory.
pub fn validate_directory_name(name: &str, operation: ProjectOperation) -> (result: Result<
    (),
    ProjectServiceError,
>)
    ensures
        result is Ok <==> directory_name_acceptable(name@),
        result matches Err(error) ==> {
            &&& error.code == ProjectErrorCode::InvalidName
            &&& error.operation == operation
            &&& error.message@
                == "目录名必须是单个安全路径片段，且不能使用 Windows 保留名或结尾点/空格。"@
            &&& error.path is None
            &&& error.supported_version is None
            &&& error.detected_version is None
        },
{
    proof {
        reveal_strlit(".");
        reveal_strlit("..");
        reveal_strlit("CLOCK$");
    }
    let chars = chars_of(name);
    let trimmed = trim_chars(&chars);
    let n = trimmed.len();
    let mut invalid_character = false;
    let mut i: usize = 0;
    while i < n
        invariant
            n == trimmed@.len(),
            0 <= i <= n,
            invalid_character == exists|j: int| 0 <= j < i && forbidden_directory_char(
                #[trigger] trimmed@[j],
            ),
        decreases n - i,
    {
        if is_forbidden_directory_char(trimmed[i]) {
            invalid_character = true;
        }
        i = i + 1;
    }
    let text = string_from_chars(trimmed.as_slice());
    let stem = upper_stem(text.as_str());
    let clock = chars_of("CLOCK$");
    let dot_names = n > 0 && n <= 2 && trimmed[0] == '.' && trimmed[n - 1] == '.';
    proof {
        if n > 0 && n <= 2 {
            if dot_names {
                if n == 1 {
                    assert(trimmed@ =~= "."@);
                } else {
                    assert(trimmed@ =~= ".."@);
                }
            }
        }
    }
    let bad_end = n > 0 && (trimmed[n - 1] == '.' || trimmed[n - 1] == ' ');
    if n == 0 || n > MAX_DIRECTORY_NAME_CHARS || invalid_character || dot_names || bad_end
        || reserved_stem(stem.as_slice()) || chars_equal(stem.as_slice(), clock.as_slice()) {
        return Err(
            ProjectServiceError::new(
                ProjectErrorCode::InvalidName,
                operation,
                "目录名必须是单个安全路径片段，且不能使用 Windows 保留名或结尾点/空格。",
            ),
        );
    }
    Ok(())
}

/// Why a project text field is refused, if it is: the trimmed text must hold
/// 1 to `max_characters` characters and no control character.
pub open spec fn project_text_refusal(value: Seq<char>, label: Seq<char>, max_characters: usize) -> Option<
    Seq<char>,
> {
    let trimmed = trim_spec(value);
    if trimmed.len() == 0 || trimmed.len() > max_characters {
        Some(label + "不能为空，且不能超过 "@ + decimal(max_characters as nat) + " 个字符。"@)
    } else if exists|i: int| 0 <= i < trimmed.len() && is_control_spec(#[trigger] trimmed[i]) {
        Some(label + "不能包含控制字符。"@)
    } else {
        None
    }
}

/// The trimmed text of a project field labelled `label`, refused unless it
/// holds 1 to `max_characters` characters and no control character.
pub fn validate_text(value: &str, label: &str, max_characters: usize, operation: ProjectOperation) -> (result:
    Result<String, ProjectServiceError>)
    ensures
        result is Ok <==> project_text_refusal(value@, label@, max_characters) is None,
        result matches Ok(text) ==> text@ == trim_spec(value@),
        result matches Err(error) ==> {
            &&& error.code == ProjectErrorCode::InvalidName
            &&& error.operation == operation
            &&& Some(error.message@) == project_text_refusal(value@, label@, max_characters)
            &&& error.path is None
            &&& error.supported_version is None
            &&& error.detected_version is None
        },
{
    let chars = chars_of(value);
    let trimmed = trim_chars(&chars);
    if trimmed.len() == 0 || trimmed.len() > max_characters {
        let mut message = String::from_str(label);
        message.append("不能为空，且不能超过 ");
        push_decimal(&mut message, max_characters as u64);
        message.append(" 个字符。");
        return Err(named_error(ProjectErrorCode::InvalidName, operation, message));
    }
    let mut i: usize = 0;
    while i < trimmed.len()
        invariant
            trimmed@ == trim_spec(value@),
            0 < trimmed@.len() <= max_characters,
            0 <= i <= trimmed@.len(),
            forall|j: int| 0 <= j < i ==> !is_control_spec(#[trigger] trimmed@[j]),
        decreases trimmed@.len() - i,
    {
        if is_control(trimmed[i]) {
            assert(is_control_spec(trimmed@[i as int]));
            let mut message = String::from_str(label);
            message.append("不能包含控制字符。");
            return Err(named_error(ProjectErrorCode::InvalidName, operation, message));
        }
        i = i + 1;
    }
    Ok(string_from_chars(trimmed.as_slice()))
}

/// A project error with an owned message.
fn named_error(code: ProjectErrorCode, operation: ProjectOperation, message: String) -> (error:
    ProjectServiceError)
    ensures
        error.code == code,
        error.operation == operation,
        error.message@ == message@,
        error.path is None,
        error.supported_version is None,
        error.detected_version is None,
{
    ProjectServiceError {
        code,
        operation,
        message,
        path: None,
        supported_version: None,
        detected_version: None,
    }
}


/// Where a project's format stands against the current one.
#[derive(Debug, Clone, PartialEq, Eq)]
pub enum ProjectMigrationStatusData {
    /// The project is in the current format.
    Current { format_version: u32 },
    /// The project must be migrated, by the named steps, before it is used.
    Required { from_version: u32, to_version: u32, steps: Vec<String> },
    /// A newer release made the project; this one does not read it.
    UnsupportedNewer { detected_version: u32, supported_version: u32 },
}

/// The migration status of a marker of format `version`: current, the legacy
/// format 0 that one step migrates, or any other version as newer.
pub open spec fn migration_status_matches(status: ProjectMigrationStatusData, version: u32) -> bool {
    if version == CURRENT_PROJECT_FORMAT_VERSION {
        status == ProjectMigrationStatusData::Current { format_version: CURRENT_PROJECT_FORMAT_VERSION }
    } else if version == 0 {
        status matches ProjectMigrationStatusData::Required { from_version, to_version, steps } && {
            &&& from_version == 0
            &&& to_version == CURRENT_PROJECT_FORMAT_VERSION
            &&& steps@.len() == 1
            &&& steps@[0]@ == MIGRATION_V0_TO_V1@
        }
    } else {
        status == ProjectMigrationStatusData::UnsupportedNewer {
            detected_version: version,
            supported_version: CURRENT_PROJECT_FORMAT_VERSION,
        }
    }
}

/// The migration status of a marker of format `version`.
pub fn migration_status(version: u32) -> (status: ProjectMigrationStatusData)
    ensures
        migration_status_matches(status, version),
{
    if version == CURRENT_PROJECT_FORMAT_VERSION {
        ProjectMigrationStatusData::Current { format_version: CURRENT_PROJECT_FORMAT_VERSION }
    } else if version == 0 {
        let mut steps: Vec<String> = Vec::new();
        steps.push(MIGRATION_V0_TO_V1.to_owned());
        ProjectMigrationStatusData::Required {
            from_version: 0,
            to_version: CURRENT_PROJECT_FORMAT_VERSION,
            steps,
        }
    } else {
        ProjectMigrationStatusData::UnsupportedNewer {
            detected_version: version,
            supported_version: CURRENT_PROJECT_FORMAT_VERSION,
        }
    }
}

/// Refuses to open a project that is not in the current format: one that
/// needs a migration, or one that a newer release made.
pub fn require_current_format(
    status: &ProjectMigrationStatusData,
    operation: ProjectOperation,
    marker_path: &str,
) -> (result: Result<(), ProjectServiceError>)
    ensures
        result is Ok <==> status is Current,
        result matches Err(error) ==> {
            &&& error.operation == operation
            &&& opt_view(error.path) == Some(marker_path@)
            &&& match *status {
                ProjectMigrationStatusData::Required { from_version, to_version, .. } => {
                    &&& error.code == ProjectErrorCode::MigrationRequired
                    &&& error.message@ == "项目格式需要迁移后才能打开。"@
                    &&& error.supported_version == Some(to_version)
                    &&& error.detected_version == Some(from_version)
                },
                ProjectMigrationStatusData::UnsupportedNewer { detected_version, supported_version } => {
                    &&& error.code == ProjectErrorCode::UnsupportedNewerVersion
                    &&& error.message@ == "项目由更新版本的 NarraCut 创建，当前版本拒绝降级打开。"@
                    &&& error.supported_version == Some(supported_version)
                    &&& error.detected_version == Some(detected_version)
                },
                ProjectMigrationStatusData::Current { .. } => false,
            }
        },
{
    match status {
        ProjectMigrationStatusData::Current { .. } => Ok(()),
        ProjectMigrationStatusData::Required { from_version, to_version, .. } => Err(
            ProjectServiceError::new(
                ProjectErrorCode::MigrationRequired,
                operation,
                "项目格式需要迁移后才能打开。",
            ).at_path(marker_path).with_versions(*to_version, *from_version),
        ),
        ProjectMigrationStatusData::UnsupportedNewer { detected_version, supported_version } => Err(
            ProjectServiceError::new(
                ProjectErrorCode::UnsupportedNewerVersion,
                operation,
                "项目由更新版本的 NarraCut 创建，当前版本拒绝降级打开。",
            ).at_path(marker_path).with_versions(*supported_version, *detected_version),
        ),
    }
}

/// The refusal to change a project that a newer release made.
pub fn unsupported_version_error(operation: ProjectOperation, path: &str, detected_version: u32) -> (error:
    ProjectServiceError)
    ensures
        error.code == ProjectErrorCode::UnsupportedNewerVersion,
        error.operation == operation,
        error.message@ == "项目由更新版本的 NarraCut 创建，当前版本拒绝降级修改。"@,
        opt_view(error.path) == Some(path@),
        error.supported_version == Some(CURRENT_PROJECT_FORMAT_VERSION),
        error.detected_version == Some(detected_version),
{
    ProjectServiceError::new(
        ProjectErrorCode::UnsupportedNewerVersion,
        operation,
        "项目由更新版本的 NarraCut 创建，当前版本拒绝降级修改。",
    ).at_path(path).with_versions(CURRENT_PROJECT_FORMAT_VERSION, detected_version)
}

/// Refuses to change a project whose marker is not in the current format:
/// an older one must be migrated first, a newer one is never downgraded.
pub fn require_current_marker(version: u32, operation: ProjectOperation, marker_path: &str) -> (result:
    Result<(), ProjectServiceError>)
    ensures
        result is Ok <==> version == CURRENT_PROJECT_FORMAT_VERSION,
        result matches Err(error) ==> {
            &&& error.operation == operation
            &&& opt_view(error.path) == Some(marker_path@)
            &&& error.supported_version == Some(CURRENT_PROJECT_FORMAT_VERSION)
            &&& error.detected_version == Some(version)
            &&& if version < CURRENT_PROJECT_FORMAT_VERSION {
                error.code == ProjectErrorCode::MigrationRequired && error.message@
                    == "项目格式需要迁移后才能修改。"@
            } else {
                error.code == ProjectErrorCode::UnsupportedNewerVersion && error.message@
                    == "项目由更新版本的 NarraCut 创建，当前版本拒绝降级修改。"@
            }
        },
{
    if version < CURRENT_PROJECT_FORMAT_VERSION {
        return Err(
            ProjectServiceError::new(
                ProjectErrorCode::MigrationRequired,
                operation,
                "项目格式需要迁移后才能修改。",
            ).at_path(marker_path).with_versions(CURRENT_PROJECT_FORMAT_VERSION, version),
        );
    }
    if version > CURRENT_PROJECT_FORMAT_VERSION {
        return Err(unsupported_version_error(operation, marker_path, version));
    }
    Ok(())
}

/// Decides whether a marker of format `version` may be migrated when the
/// caller confirmed `expected_version`: only the legacy format 0, and only
/// while it is still the confirmed one.
pub fn check_migration_source(
    version: u32,
    expected_version: u32,
    operation: ProjectOperation,
    marker_path: &str,
) -> (result: Result<(), ProjectServiceError>)
    ensures
        result is Ok <==> version == expected_version && version == 0,
        result matches Err(error) ==> {
            &&& error.operation == operation
            &&& opt_view(error.path) == Some(marker_path@)
            &&& error.detected_version == Some(version)
            &&& if version != expected_version {
                &&& error.code == ProjectErrorCode::MigrationConflict
                &&& error.message@ == "项目格式在确认迁移后发生了变化，请重新检查。"@
                &&& error.supported_version == Some(expected_version)
            } else if version > CURRENT_PROJECT_FORMAT_VERSION {
                &&& error.code == ProjectErrorCode::UnsupportedNewerVersion
                &&& error.message@ == "项目由更新版本的 NarraCut 创建，当前版本拒绝降级修改。"@
                &&& error.supported_version == Some(CURRENT_PROJECT_FORMAT_VERSION)
            } else if version == CURRENT_PROJECT_FORMAT_VERSION {
                &&& error.code == ProjectErrorCode::MigrationConflict
                &&& error.message@ == "项目已经是当前格式，不需要重复迁移。"@
                &&& error.supported_version == Some(CURRENT_PROJECT_FORMAT_VERSION)
            } else {
                &&& error.code == ProjectErrorCode::MigrationFailed
                &&& error.message@ == "没有从项目格式 "@ + decimal(version as nat) + " 开始的迁移路径。"@
                &&& error.supported_version == Some(CURRENT_PROJECT_FORMAT_VERSION)
            }
        },
{
    if version != expected_version {
        return Err(
            ProjectServiceError::new(
                ProjectErrorCode::MigrationConflict,
                operation,
                "项目格式在确认迁移后发生了变化，请重新检查。",
            ).at_path(marker_path).with_versions(expected_version, version),
        );
    }
    if version > CURRENT_PROJECT_FORMAT_VERSION {
        return Err(unsupported_version_error(operation, marker_path, version));
    }
    if version == CURRENT_PROJECT_FORMAT_VERSION {
        return Err(
            ProjectServiceError::new(
                ProjectErrorCode::MigrationConflict,
                operation,
                "项目已经是当前格式，不需要重复迁移。",
            ).at_path(marker_path).with_versions(CURRENT_PROJECT_FORMAT_VERSION, version),
        );
    }
    if version != 0 {
        let mut message = String::from_str("没有从项目格式 ");
        push_decimal(&mut message, version as u64);
        message.append(" 开始的迁移路径。");
        return Err(
            named_error(ProjectErrorCode::MigrationFailed, operation, message).at_path(
                marker_path,
            ).with_versions(CURRENT_PROJECT_FORMAT_VERSION, version),
        );
    }
    Ok(())
}

/// Checks what the file system says of a project marker before it is read:
/// not a link, a regular file, and at most [`MAX_MARKER_BYTES`] long.
pub fn validate_marker_metadata(
    is_link: bool,
    is_file: bool,
    length: u64,
    operation: ProjectOperation,
    marker_path: &str,
) -> (result: Result<(), ProjectServiceError>)
    ensures
        result is Ok <==> !is_link && is_file && length <= MAX_MARKER_BYTES,
        result matches Err(error) ==> {
            &&& error.operation == operation
            &&& opt_view(error.path) == Some(marker_path@)
            &&& error.supported_version is None
            &&& error.detected_version is None
            &&& if is_link {
                error.code == ProjectErrorCode::PathContainsSymlink && error.message@
                    == "项目标识文件不能是符号链接或重解析点。"@
            } else if !is_file {
                error.code == ProjectErrorCode::InvalidProject && error.message@
                    == "项目标识路径不是普通文件。"@
            } else {
                error.code == ProjectErrorCode::MarkerTooLarge && error.message@
                    == "项目标识文件超过 1048576 字节上限。"@
            }
        },
{
    if is_link {
        return Err(
            ProjectServiceError::new(
                ProjectErrorCode::PathContainsSymlink,
                operation,
                "项目标识文件不能是符号链接或重解析点。",
            ).at_path(marker_path),
        );
    }
    if !is_file {
        return Err(
            ProjectServiceError::new(
                ProjectErrorCode::InvalidProject,
                operation,
                "项目标识路径不是普通文件。",
            ).at_path(marker_path),
        );
    }
    if length > MAX_MARKER_BYTES {
        return Err(
            ProjectServiceError::new(
                ProjectErrorCode::MarkerTooLarge,
                operation,
                "项目标识文件超过 1048576 字节上限。",
            ).at_path(marker_path),
        );
    }
    Ok(())
}

/// The marker's format version, refused unless `projectFormatVersion` is a
/// non-negative integer that fits 32 bits.
pub fn marker_format_version(
    declared: Option<u64>,
    operation: ProjectOperation,
    marker_path: &str,
) -> (result: Result<u32, ProjectServiceError>)
    ensures
        result is Ok <==> (declared matches Some(v) && v <= u32::MAX),
        result matches Ok(version) ==> declared == Some(version as u64),
        result matches Err(error) ==> {
            &&& error.code == ProjectErrorCode::InvalidProject
            &&& error.operation == operation
            &&& error.message@ == "projectFormatVersion 必须是非负整数。"@
            &&& opt_view(error.path) == Some(marker_path@)
        },
{
    match declared {
        Some(v) => {
            if v <= u32::MAX as u64 {
                Ok(v as u32)
            } else {
                Err(
                    ProjectServiceError::new(
                        ProjectErrorCode::InvalidProject,
                        operation,
                        "projectFormatVersion 必须是非负整数。",
                    ).at_path(marker_path),
                )
            }
        },
        None => Err(
            ProjectServiceError::new(
                ProjectErrorCode::InvalidProject,
                operation,
                "projectFormatVersion 必须是非负整数。",
            ).at_path(marker_path),
        ),
    }
}

/// Checks what the file system says of a directory a project operation works
/// in: a non-empty path to a directory that is not a link.
pub fn validate_directory_metadata(
    path: &str,
    is_link: bool,
    is_dir: bool,
    operation: ProjectOperation,
) -> (result: Result<(), ProjectServiceError>)
    ensures
        result is Ok <==> path@.len() > 0 && !is_link && is_dir,
        result matches Err(error) ==> {
            &&& error.operation == operation
            &&& error.supported_version is None
            &&& error.detected_version is None
            &&& if path@.len() == 0 {
                error.code == ProjectErrorCode::InvalidPath && error.message@ == "路径不能为空。"@
                    && error.path is None
            } else if is_link {
                error.code == ProjectErrorCode::PathContainsSymlink && error.message@
                    == "项目边界目录不能是符号链接或重解析点。"@ && opt_view(error.path) == Some(path@)
            } else {
                error.code == ProjectErrorCode::InvalidPath && error.message@ == "路径不是目录。"@
                    && opt_view(error.path) == Some(path@)
            }
        },
{
    if chars_of(path).len() == 0 {
        return Err(ProjectServiceError::new(ProjectErrorCode::InvalidPath, operation, "路径不能为空。"));
    }
    if is_link {
        return Err(
            ProjectServiceError::new(
                ProjectErrorCode::PathContainsSymlink,
                operation,
                "项目边界目录不能是符号链接或重解析点。",
            ).at_path(path),
        );
    }
    if !is_dir {
        return Err(
            ProjectServiceError::new(ProjectErrorCode::InvalidPath, operation, "路径不是目录。").at_path(
                path,
            ),
        );
    }
    Ok(())
}


/// What a project copy visits: a file of some length, or a directory.
#[derive(Debug, Clone, Copy, PartialEq, Eq, Structural)]
pub enum CopyEntryKind {
    File { length: u64 },
    Directory,
}

/// The number of files among the first `n` entries.
pub open spec fn file_count(entries: Seq<CopyEntryKind>, n: int) -> int
    decreases n,
{
    if n <= 0 {
        0
    } else {
        file_count(entries, n - 1) + if entries[n - 1] is File {
            1int
        } else {
            0int
        }
    }
}

/// The total length of the files among the first `n` entries.
pub open spec fn byte_total(entries: Seq<CopyEntryKind>, n: int) -> int
    decreases n,
{
    if n <= 0 {
        0
    } else {
        byte_total(entries, n - 1) + match entries[n - 1] {
            CopyEntryKind::File { length } => length as int,
            CopyEntryKind::Directory => 0int,
        }
    }
}

/// At most `n` of the first `n` entries are files.
proof fn lemma_file_count_bounded(entries: Seq<CopyEntryKind>, n: int)
    requires
        0 <= n,
    ensures
        0 <= file_count(entries, n) <= n,
    decreases n,
{
    if n > 0 {
        lemma_file_count_bounded(entries, n - 1);
    }
}

/// Totals grow with the entries counted.
proof fn lemma_totals_grow(entries: Seq<CopyEntryKind>, m: int, n: int)
    requires
        0 <= m <= n,
    ensures
        byte_total(entries, m) <= byte_total(entries, n),
        file_count(entries, m) <= file_count(entries, n) <= n,
    decreases n - m,
{
    lemma_file_count_bounded(entries, n);
    if m < n {
        lemma_totals_grow(entries, m, n - 1);
    }
}

/// The number of files and bytes a copy would move, refused when it exceeds
/// the synchronous limits or the byte count does not fit 64 bits.
pub fn check_copy_limits(
    entries: &[CopyEntryKind],
    max_files: u64,
    max_bytes: u64,
    operation: ProjectOperation,
    source_path: &str,
) -> (result: Result<(u64, u64), ProjectServiceError>)
    ensures
        ({
            let n = entries@.len() as int;
            let files = file_count(entries@, n);
            let bytes = byte_total(entries@, n);
            &&& result is Ok <==> files <= max_files && bytes <= max_bytes
            &&& result matches Ok(totals) ==> totals.0 == files && totals.1 == bytes
            &&& result matches Err(error) ==> {
                &&& error.code == ProjectErrorCode::CopyTooLarge
                &&& error.operation == operation
                &&& opt_view(error.path) == Some(source_path@)
                &&& error.message@ == if files > max_files {
                    "项目包含 "@ + decimal(files as nat) + " 个文件，超过当前有界复制上限 "@ + decimal(
                        max_files as nat,
                    ) + " 个；请等待任务队列接管。"@
                } else if bytes > u64::MAX {
                    "项目大小超过可表示范围，已拒绝复制。"@
                } else {
                    "项目大小为 "@ + decimal(bytes as nat) + " 字节，超过当前同步复制上限 "@ + decimal(
                        max_bytes as nat,
                    ) + " 字节；请等待任务队列接管。"@
                }
            }
        }),
{
    let ghost all = entries@;
    let mut files: u64 = 0;
    let mut k: usize = 0;
    while k < entries.len()
        invariant
            all == entries@,
            0 <= k <= entries@.len(),
            files == file_count(all, k as int),
        decreases entries@.len() - k,
    {
        proof {
            lemma_totals_grow(all, k as int, k + 1);
        }
        match entries[k] {
            CopyEntryKind::File { .. } => {
                files = files + 1;
            },
            CopyEntryKind::Directory => {},
        }
        k = k + 1;
    }
    if files > max_files {
        let mut message = String::from_str("项目包含 ");
        push_decimal(&mut message, files);
        message.append(" 个文件，超过当前有界复制上限 ");
        push_decimal(&mut message, max_files);
        message.append(" 个；请等待任务队列接管。");
        return Err(named_error(ProjectErrorCode::CopyTooLarge, operation, message).at_path(source_path));
    }
    let mut bytes: u64 = 0;
    let mut j: usize = 0;
    while j < entries.len()
        invariant
            all == entries@,
            files == file_count(all, all.len() as int),
            files <= max_files,
            0 <= j <= entries@.len(),
            bytes == byte_total(all, j as int),
        decreases entries@.len() - j,
    {
        let length: u64 = match entries[j] {
            CopyEntryKind::File { length } => length,
            CopyEntryKind::Directory => 0,
        };
        match bytes.checked_add(length) {
            Some(total) => {
                bytes = total;
            },
            None => {
                proof {
                    lemma_totals_grow(all, j + 1, all.len() as int);
                }
                return Err(
                    ProjectServiceError::new(
                        ProjectErrorCode::CopyTooLarge,
                        operation,
                        "项目大小超过可表示范围，已拒绝复制。",
                    ).at_path(source_path),
                );
            },
        }
        j = j + 1;
    }
    if bytes > max_bytes {
        let mut message = String::from_str("项目大小为 ");
        push_decimal(&mut message, bytes);
        message.append(" 字节，超过当前同步复制上限 ");
        push_decimal(&mut message, max_bytes);
        message.append(" 字节；请等待任务队列接管。");
        return Err(named_error(ProjectErrorCode::CopyTooLarge, operation, message).at_path(source_path));
    }
    Ok((files, bytes))
}

/// The result of moving a project to the trash.
#[derive(Debug, Clone, PartialEq, Eq)]
pub struct ProjectTrashResultData {
    pub api_version: String,
    pub project_id: String,
    pub trashed_path: String,
}

/// Why a project may not be moved to the trash, if it may not: the file
/// system root never is, and the caller must confirm the project's identity.
pub fn check_trash_target(
    has_parent: bool,
    project_id: &str,
    expected_project_id: &str,
    operation: ProjectOperation,
    project_dir: &str,
) -> (result: Result<(), ProjectServiceError>)
    ensures
        result is Ok <==> has_parent && project_id@ == expected_project_id@,
        result matches Err(error) ==> {
            &&& error.operation == operation
            &&& opt_view(error.path) == Some(project_dir@)
            &&& if !has_parent {
                error.code == ProjectErrorCode::InvalidPath && error.message@
                    == "文件系统根目录不能作为项目移入回收站。"@
            } else {
                error.code == ProjectErrorCode::InvalidRequest && error.message@
                    == "项目身份确认失败，已拒绝移动到回收站。"@
            }
        },
{
    if !has_parent {
        return Err(
            ProjectServiceError::new(
                ProjectErrorCode::InvalidPath,
                operation,
                "文件系统根目录不能作为项目移入回收站。",
            ).at_path(project_dir),
        );
    }
    if !crate::text::same_text(project_id, expected_project_id) {
        return Err(
            ProjectServiceError::new(
                ProjectErrorCode::InvalidRequest,
                operation,
                "项目身份确认失败，已拒绝移动到回收站。",
            ).at_path(project_dir),
        );
    }
    Ok(())
}

/// `result` reports what the trash answered: success with the project's
/// identity and directory, or the trash's reason behind a fixed prefix.
pub open spec fn trash_outcome_matches(
    moved: Result<(), String>,
    result: Result<ProjectTrashResultData, ProjectServiceError>,
    project_id: Seq<char>,
    project_dir: Seq<char>,
    operation: ProjectOperation,
) -> bool {
    match (moved, result) {
        (Ok(()), Ok(data)) => {
            &&& data.api_version@ == PROJECT_COMMAND_API_VERSION@
            &&& data.project_id@ == project_id
            &&& data.trashed_path@ == project_dir
        },
        (Err(reason), Err(error)) => {
            &&& error.code == ProjectErrorCode::TrashFailed
            &&& error.operation == operation
            &&& error.message@ == "移动项目到系统回收站失败："@ + reason@
            &&& opt_view(error.path) == Some(project_dir)
        },
        _ => false,
    }
}

/// What moving a project to the trash reports, given what the trash said.
pub fn trash_outcome(
    moved: Result<(), String>,
    project_id: &str,
    project_dir: &str,
    operation: ProjectOperation,
) -> (result: Result<ProjectTrashResultData, ProjectServiceError>)
    ensures
        result is Ok <==> moved is Ok,
        result matches Ok(data) ==> data.api_version@ == PROJECT_COMMAND_API_VERSION@
            && data.project_id@ == project_id@ && data.trashed_path@ == project_dir@,
        result matches Err(error) ==> moved matches Err(reason) && {
            &&& error.code == ProjectErrorCode::TrashFailed
            &&& error.operation == operation
            &&& error.message@ == "移动项目到系统回收站失败："@ + reason@
            &&& opt_view(error.path) == Some(project_dir@)
        },
        trash_outcome_matches(moved, result, project_id@, project_dir@, operation),
{
    match moved {
        Ok(()) => Ok(
            ProjectTrashResultData {
                api_version: PROJECT_COMMAND_API_VERSION.to_owned(),
                project_id: project_id.to_owned(),
                trashed_path: project_dir.to_owned(),
            },
        ),
        Err(reason) => {
            let mut message = String::from_str("移动项目到系统回收站失败：");
            message.append(reason.as_str());
            Err(named_error(ProjectErrorCode::TrashFailed, operation, message).at_path(project_dir))
        },
    }
}

/// The fields of a legacy (format 0) project marker that its migration reads:
/// whether it is a JSON object, its required texts where they are texts, and
/// whether its `stages` is an array.
#[derive(Debug, Clone, PartialEq, Eq)]
pub struct LegacyProjectFields {
    pub is_object: bool,
    pub project_id: Option<String>,
    pub name: Option<String>,
    pub workflow_definition_id: Option<String>,
    pub created_at: Option<String>,
    pub updated_at: Option<String>,
    pub stages_is_array: bool,
}

/// Why a legacy marker cannot be migrated, if it cannot: it is no object, a
/// required field (in the order `projectId`, `name`, `workflowDefinitionId`,
/// `createdAt`, `updatedAt`) is not a text, or its stages are no array.
pub open spec fn legacy_refusal(fields: LegacyProjectFields) -> Option<Seq<char>> {
    if !fields.is_object {
        Some("旧版项目标识必须是 JSON 对象。"@)
    } else if fields.project_id is None {
        Some("项目字段 projectId 必须是字符串。"@)
    } else if fields.name is None {
        Some("项目字段 name 必须是字符串。"@)
    } else if fields.workflow_definition_id is None {
        Some("项目字段 workflowDefinitionId 必须是字符串。"@)
    } else if fields.created_at is None {
        Some("项目字段 createdAt 必须是字符串。"@)
    } else if fields.updated_at is None {
        Some("项目字段 updatedAt 必须是字符串。"@)
    } else if !fields.stages_is_array {
        Some("旧版项目的 stages 必须是数组。"@)
    } else {
        None
    }
}

/// Checks that a legacy project marker has what its migration needs.
pub fn validate_legacy_v0(fields: &LegacyProjectFields, operation: ProjectOperation, path: &str) -> (result:
    Result<(), ProjectServiceError>)
    ensures
        match legacy_refusal(*fields) {
            Some(message) => result matches Err(error) && {
                &&& error.code == ProjectErrorCode::InvalidProject
                &&& error.operation == operation
                &&& error.message@ == message
                &&& opt_view(error.path) == Some(path@)
            },
            None => result is Ok,
        },
{
    let message = if !fields.is_object {
        "旧版项目标识必须是 JSON 对象。"
    } else if fields.project_id.is_none() {
        "项目字段 projectId 必须是字符串。"
    } else if fields.name.is_none() {
        "项目字段 name 必须是字符串。"
    } else if fields.workflow_definition_id.is_none() {
        "项目字段 workflowDefinitionId 必须是字符串。"
    } else if fields.created_at.is_none() {
        "项目字段 createdAt 必须是字符串。"
    } else if fields.updated_at.is_none() {
        "项目字段 updatedAt 必须是字符串。"
    } else if !fields.stages_is_array {
        "旧版项目的 stages 必须是数组。"
    } else {
        return Ok(());
    };
    Err(ProjectServiceError::new(ProjectErrorCode::InvalidProject, operation, message).at_path(path))
}

} // verus!
