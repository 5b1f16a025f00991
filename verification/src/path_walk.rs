use vstd::prelude::*;

use crate::storage_error::{opt_view, StorageErrorCode, StorageOperation, StorageServiceError};

verus! {

/// The error of a refused step of a path walk.
pub open spec fn walk_error(
    error: StorageServiceError,
    code: StorageErrorCode,
    operation: StorageOperation,
    message: Seq<char>,
    path: Seq<char>,
) -> bool {
    &&& error.code == code
    &&& error.operation == operation
    &&& error.message@ == message
    &&& opt_view(error.path) == Some(path)
    &&& error.artifact_id is None
}

fn walk_refusal(code: StorageErrorCode, operation: StorageOperation, message: &str, path: &str) -> (error:
    StorageServiceError)
    ensures
        walk_error(error, code, operation, message@, path@),
{
    StorageServiceError::new(code, operation, message).at_path(path)
}

/// Checks the project root a path inside the project is walked from: a
/// directory, not a link.
pub fn check_project_root(is_link: bool, is_dir: bool, operation: StorageOperation, project_dir: &str) -> (result:
    Result<(), StorageServiceError>)
    ensures
        result is Ok <==> !is_link && is_dir,
        result matches Err(error) ==> if is_link {
            walk_error(
                error,
                StorageErrorCode::PathContainsSymlink,
                operation,
                "项目根目录不能是符号链接或重解析点。"@,
                project_dir@,
            )
        } else {
            walk_error(error, StorageErrorCode::InvalidPath, operation, "项目根路径不是目录。"@, project_dir@)
        },
{
    if is_link {
        return Err(
            walk_refusal(
                StorageErrorCode::PathContainsSymlink,
                operation,
                "项目根目录不能是符号链接或重解析点。",
                project_dir,
            ),
        );
    }
    if !is_dir {
        return Err(walk_refusal(StorageErrorCode::InvalidPath, operation, "项目根路径不是目录。", project_dir));
    }
    Ok(())
}

/// Refuses a path outside the project, or one with a component that is not a
/// plain name (a root, a prefix, `.` or `..`).
pub fn check_path_layout(
    inside_project: bool,
    plain_components: bool,
    operation: StorageOperation,
    path: &str,
) -> (result: Result<(), StorageServiceError>)
    ensures
        result is Ok <==> inside_project && plain_components,
        result matches Err(error) ==> if !inside_project {
            walk_error(error, StorageErrorCode::InvalidPath, operation, "Artifact 路径不在项目根目录内。"@, path@)
        } else {
            walk_error(error, StorageErrorCode::InvalidPath, operation, "Artifact 路径包含非法组件。"@, path@)
        },
{
    if !inside_project {
        return Err(walk_refusal(StorageErrorCode::InvalidPath, operation, "Artifact 路径不在项目根目录内。", path));
    }
    if !plain_components {
        return Err(walk_refusal(StorageErrorCode::InvalidPath, operation, "Artifact 路径包含非法组件。", path));
    }
    Ok(())
}

/// Checks one component reached while walking a path inside the project: no
/// link on the way, and every component before the last a directory.
pub fn check_path_step(
    is_link: bool,
    is_dir: bool,
    is_final: bool,
    operation: StorageOperation,
    current: &str,
) -> (result: Result<(), StorageServiceError>)
    ensures
        result is Ok <==> !is_link && (is_final || is_dir),
        result matches Err(error) ==> if is_link {
            walk_error(
                error,
                StorageErrorCode::PathContainsSymlink,
                operation,
                "Artifact 路径不能经过符号链接或重解析点。"@,
                current@,
            )
        } else {
            walk_error(
                error,
                StorageErrorCode::InvalidPath,
                operation,
                "Artifact 路径的中间组件不是目录。"@,
                current@,
            )
        },
{
    if is_link {
        return Err(
            walk_refusal(
                StorageErrorCode::PathContainsSymlink,
                operation,
                "Artifact 路径不能经过符号链接或重解析点。",
                current,
            ),
        );
    }
    if !is_final && !is_dir {
        return Err(walk_refusal(StorageErrorCode::InvalidPath, operation, "Artifact 路径的中间组件不是目录。", current));
    }
    Ok(())
}

} // verus!
