use vstd::prelude::*;

use crate::identifiers::{portable_id, portable_id_spec, run_id_is_valid, run_id_spec, sha256_ref_spec};
use crate::media_error::{plain_media_error, MediaErrorCode, MediaOperation, MediaServiceError};
use crate::media_rules::{
    rights_refusal, safe_source_basename, source_hash_refusal, source_name_acceptable,
    validate_expected_source_hash, validate_frozen_audio_input, validate_frozen_script_input,
    validate_rights,
};
use crate::media_types::{FrozenArtifactInputData, MediaRightsData};
use crate::timeline::frozen_input_valid;
use crate::text::{chars_of, same_text, valid_bounded_text, valid_bounded_text_spec};

verus! {

/// The most bytes of a media source imported synchronously.
pub const MAX_AUDIO_SOURCE_BYTES: u64 = 64 * 1024 * 1024;

/// The longest audio a caption import may cover, in milliseconds.
pub const MAX_CAPTION_AUDIO_DURATION_MS: u64 = 86_400_000;

/// The limits of reading a PCM WAV source.
#[derive(Debug, Clone, Copy, PartialEq, Eq, Structural)]
pub struct PcmWavParseLimits {
    pub max_bytes: u64,
}

/// The limits of reading an SRT source.
#[derive(Debug, Clone, Copy, PartialEq, Eq, Structural)]
pub struct SrtParseLimits {
    pub max_bytes: u64,
    pub max_cue_count: u64,
    pub max_cue_text_bytes: u64,
}

/// A request to import narration audio for an approved script. Its
/// configuration snapshot is held as canonical JSON text (keys sorted, no
/// whitespace).
#[derive(Debug, Clone, PartialEq, Eq)]
pub struct ImportAudioOptions {
    pub project_path: String,
    pub expected_project_id: String,
    pub run_id: String,
    pub source_path: String,
    pub expected_source_content_hash: Option<String>,
    pub script_input: FrozenArtifactInputData,
    pub rights: MediaRightsData,
    pub limits: PcmWavParseLimits,
    pub config_snapshot: String,
    pub idempotency_key: String,
}

/// A request to import captions for approved script and audio. Its
/// configuration snapshot is held as canonical JSON text (keys sorted, no
/// whitespace).
#[derive(Debug, Clone, PartialEq, Eq)]
pub struct ImportCaptionsOptions {
    pub project_path: String,
    pub expected_project_id: String,
    pub run_id: String,
    pub source_path: String,
    pub expected_source_content_hash: Option<String>,
    pub script_input: FrozenArtifactInputData,
    pub audio_input: FrozenArtifactInputData,
    pub audio_duration_ms: u64,
    pub rights: MediaRightsData,
    pub limits: SrtParseLimits,
    pub config_snapshot: String,
    pub idempotency_key: String,
}

/// The run, project and idempotency key of an import, and its configuration
/// snapshot, are acceptable: a `run_` identifier, a portable project
/// identifier, a key of 1 to 256 characters without control characters, and
/// a snapshot that is a JSON object.
pub open spec fn import_identity_valid(
    run_id: Seq<char>,
    project_id: Seq<char>,
    key: Seq<char>,
    config_snapshot_is_object: bool,
) -> bool {
    &&& run_id_spec(run_id)
    &&& portable_id_spec(project_id, 160)
    &&& valid_bounded_text_spec(key, 256, false)
    &&& config_snapshot_is_object
}

/// An expected source hash, where one is given, is canonical.
pub open spec fn expected_hash_valid(expected: Option<String>) -> bool {
    match expected {
        Some(hash) => sha256_ref_spec(hash@),
        None => true,
    }
}

/// The source path's last component, where it is Unicode.
pub open spec fn opt_text(value: Option<&str>) -> Option<Seq<char>> {
    match value {
        Some(text) => Some(text@),
        None => None,
    }
}

/// Why an import's source path is refused: it is not absolute, or its file
/// name is not portable.
pub open spec fn source_path_acceptable(source_is_absolute: bool, file_name: Option<Seq<char>>) -> bool {
    source_is_absolute && match file_name {
        Some(name) => source_name_acceptable(name),
        None => false,
    }
}

/// Why an audio import request is refused, with the error's code and
/// message: its rights, its source path, its identity, configuration or limit,
/// its expected source hash, or its frozen script input.
pub open spec fn audio_request_refusal(
    options: ImportAudioOptions,
    source_is_absolute: bool,
    file_name: Option<Seq<char>>,
) -> Option<(MediaErrorCode, Seq<char>)> {
    if rights_refusal(options.rights) is Some {
        rights_refusal(options.rights)
    } else if !source_path_acceptable(source_is_absolute, file_name) {
        Some((MediaErrorCode::InvalidSourceName, "媒体源文件名不满足可移植安全规则。"@))
    } else if !import_identity_valid(
        options.run_id@,
        options.expected_project_id@,
        options.idempotency_key@,
        json_object_text(options.config_snapshot@),
    ) || !(0 < options.limits.max_bytes <= MAX_AUDIO_SOURCE_BYTES) {
        Some((MediaErrorCode::InvalidRequest, "Audio 请求标识、配置或资源上限无效。"@))
    } else if !expected_hash_valid(options.expected_source_content_hash) {
        Some((MediaErrorCode::InvalidRequest, "源内容哈希必须使用 sha256:<64位小写十六进制>。"@))
    } else if !frozen_input_valid(options.script_input, "script"@) {
        Some((MediaErrorCode::InvalidRequest, "Script 冻结输入引用格式无效。"@))
    } else {
        None
    }
}

/// Why a caption import request is refused, with the error's code and
/// message: as for audio, plus the audio duration and the cue limits, the
/// frozen audio input, and script and audio inputs that name one artifact.
pub open spec fn captions_request_refusal(
    options: ImportCaptionsOptions,
    source_is_absolute: bool,
    file_name: Option<Seq<char>>,
) -> Option<(MediaErrorCode, Seq<char>)> {
    if rights_refusal(options.rights) is Some {
        rights_refusal(options.rights)
    } else if !source_path_acceptable(source_is_absolute, file_name) {
        Some((MediaErrorCode::InvalidSourceName, "媒体源文件名不满足可移植安全规则。"@))
    } else if !import_identity_valid(
        options.run_id@,
        options.expected_project_id@,
        options.idempotency_key@,
        json_object_text(options.config_snapshot@),
    ) || !(0 < options.audio_duration_ms <= MAX_CAPTION_AUDIO_DURATION_MS) || !(0
        < options.limits.max_bytes <= MAX_AUDIO_SOURCE_BYTES) || !(0 < options.limits.max_cue_count
        <= 10_000) || !(0 < options.limits.max_cue_text_bytes <= 8_000) {
        Some(
            (MediaErrorCode::InvalidRequest, "Captions 请求标识、配置、时长或资源上限无效。"@),
        )
    } else if !expected_hash_valid(options.expected_source_content_hash) {
        Some((MediaErrorCode::InvalidRequest, "源内容哈希必须使用 sha256:<64位小写十六进制>。"@))
    } else if !frozen_input_valid(options.script_input, "script"@) {
        Some((MediaErrorCode::InvalidRequest, "Script 冻结输入引用格式无效。"@))
    } else if !frozen_input_valid(options.audio_input, "audio"@) {
        Some((MediaErrorCode::InvalidRequest, "Audio 冻结输入引用格式无效。"@))
    } else if options.script_input.artifact_id@ == options.audio_input.artifact_id@ {
        Some(
            (MediaErrorCode::InvalidRequest, "Captions 的 Script 与 Audio 输入必须引用不同 Artifact。"@),
        )
    } else {
        None
    }
}

/// Canonical JSON text that is an object.
pub open spec fn json_object_text(text: Seq<char>) -> bool {
    text.len() > 0 && text[0] == '{'
}

fn is_json_object_text(text: &str) -> (result: bool)
    ensures
        result == json_object_text(text@),
{
    let chars = chars_of(text);
    chars.len() > 0 && chars[0] == '{'
}

fn import_identity_ok(run_id: &str, project_id: &str, key: &str, config_snapshot_is_object: bool) -> (result:
    bool)
    ensures
        result == import_identity_valid(run_id@, project_id@, key@, config_snapshot_is_object),
{
    run_id_is_valid(run_id) && portable_id(project_id) && valid_bounded_text(key, 256, false)
        && config_snapshot_is_object
}

fn check_expected_hash(expected: &Option<String>, operation: MediaOperation) -> (result: Result<
    (),
    MediaServiceError,
>)
    ensures
        result is Ok <==> expected_hash_valid(*expected),
        result matches Err(error) ==> plain_media_error(
            error,
            MediaErrorCode::InvalidRequest,
            operation,
            "源内容哈希必须使用 sha256:<64位小写十六进制>。"@,
        ),
{
    match expected {
        Some(hash) => {
            let checked = validate_expected_source_hash(Some(hash.as_str()), hash.as_str(), operation);
            assert(source_hash_refusal(Some(hash@), hash@) is Some <==> !sha256_ref_spec(hash@));
            checked
        },
        None => Ok(()),
    }
}

fn check_source_path(source_is_absolute: bool, file_name: Option<&str>, operation: MediaOperation) -> (result:
    Result<String, MediaServiceError>)
    ensures
        result is Ok <==> source_path_acceptable(source_is_absolute, opt_text(file_name)),
        result matches Ok(name) ==> (file_name matches Some(given) && name@ == given@),
        result matches Err(error) ==> plain_media_error(
            error,
            MediaErrorCode::InvalidSourceName,
            operation,
            "媒体源文件名不满足可移植安全规则。"@,
        ),
{
    if !source_is_absolute {
        return Err(crate::media_rules::invalid_source_name(operation));
    }
    safe_source_basename(file_name, operation)
}

/// Checks an audio import request and gives its source file name.
/// `source_is_absolute` says whether the source path is absolute and
/// `file_name` is its last component where that is Unicode.
pub fn validate_audio_options(
    options: &ImportAudioOptions,
    source_is_absolute: bool,
    file_name: Option<&str>,
) -> (result: Result<String, MediaServiceError>)
    ensures
        match audio_request_refusal(*options, source_is_absolute, opt_text(file_name)) {
            Some((code, message)) => result matches Err(error) && plain_media_error(
                error,
                code,
                MediaOperation::ImportAudio,
                message,
            ),
            None => result matches Ok(name) && (file_name matches Some(given) && name@ == given@),
        },
{
    let operation = MediaOperation::ImportAudio;
    validate_rights(&options.rights, operation)?;
    let source_file_name = check_source_path(source_is_absolute, file_name, operation)?;
    if !import_identity_ok(
        options.run_id.as_str(),
        options.expected_project_id.as_str(),
        options.idempotency_key.as_str(),
        is_json_object_text(options.config_snapshot.as_str()),
    ) || options.limits.max_bytes == 0 || options.limits.max_bytes > MAX_AUDIO_SOURCE_BYTES {
        return Err(
            MediaServiceError::new(
                MediaErrorCode::InvalidRequest,
                operation,
                "Audio 请求标识、配置或资源上限无效。",
            ),
        );
    }
    check_expected_hash(&options.expected_source_content_hash, operation)?;
    validate_frozen_script_input(&options.script_input, operation)?;
    Ok(source_file_name)
}

/// Checks a caption import request and gives its source file name.
/// `source_is_absolute` says whether the source path is absolute and
/// `file_name` is its last component where that is Unicode.
pub fn validate_captions_options(
    options: &ImportCaptionsOptions,
    source_is_absolute: bool,
    file_name: Option<&str>,
) -> (result: Result<String, MediaServiceError>)
    ensures
        match captions_request_refusal(*options, source_is_absolute, opt_text(file_name)) {
            Some((code, message)) => result matches Err(error) && plain_media_error(
                error,
                code,
                MediaOperation::ImportCaptions,
                message,
            ),
            None => result matches Ok(name) && (file_name matches Some(given) && name@ == given@),
        },
{
    let operation = MediaOperation::ImportCaptions;
    validate_rights(&options.rights, operation)?;
    let source_file_name = check_source_path(source_is_absolute, file_name, operation)?;
    let limits = options.limits;
    if !import_identity_ok(
        options.run_id.as_str(),
        options.expected_project_id.as_str(),
        options.idempotency_key.as_str(),
        is_json_object_text(options.config_snapshot.as_str()),
    ) || options.audio_duration_ms == 0 || options.audio_duration_ms > MAX_CAPTION_AUDIO_DURATION_MS
        || limits.max_bytes == 0 || limits.max_bytes > MAX_AUDIO_SOURCE_BYTES || limits.max_cue_count
        == 0 || limits.max_cue_count > 10_000 || limits.max_cue_text_bytes == 0
        || limits.max_cue_text_bytes > 8_000 {
        return Err(
            MediaServiceError::new(
                MediaErrorCode::InvalidRequest,
                operation,
                "Captions 请求标识、配置、时长或资源上限无效。",
            ),
        );
    }
    check_expected_hash(&options.expected_source_content_hash, operation)?;
    validate_frozen_script_input(&options.script_input, operation)?;
    validate_frozen_audio_input(&options.audio_input, operation)?;
    if same_text(options.script_input.artifact_id.as_str(), options.audio_input.artifact_id.as_str()) {
        return Err(
            MediaServiceError::new(
                MediaErrorCode::InvalidRequest,
                operation,
                "Captions 的 Script 与 Audio 输入必须引用不同 Artifact。",
            ),
        );
    }
    Ok(source_file_name)
}

} // verus!
