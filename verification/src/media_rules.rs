use vstd::prelude::*;
use vstd::string::StringSliceAdditionalSpecFns;
use vstd::utf8::{decode_utf8, encode_utf8, is_char_boundary};

use crate::identifiers::{
    artifact_ref_is_valid, artifact_ref_spec, idempotency_key_spec, is_sha256, portable_id,
    portable_id_spec, run_id_is_valid, run_id_spec, sha256_ref_spec, string_set_spec, texts,
    valid_idempotency_key, valid_string_set,
};
use crate::media_error::{plain_media_error, MediaErrorCode, MediaOperation, MediaServiceError};
use crate::media_types::{
    FrozenArtifactInputData, GenerateScenePlanOptions, GenerateTimelineOptions,
    GetMediaDocumentOptions, MediaRightsData, SaveScenePlanOptions, SaveTimelineOptions,
};
use crate::project_error::{ProjectErrorCode, ProjectServiceError};
use crate::storage_error::{opt_view, StorageErrorCode, StorageServiceError};
use crate::text::{
    chars_of, is_control, is_control_spec, same_text, valid_bounded_text, valid_bounded_text_spec,
};
use crate::timeline::{
    canvas_valid, frozen_input_is_valid, frozen_input_valid, safe_area_valid, TimelineDomainError,
    TimelineDomainErrorCode,
};
use crate::uri::{split_chars, split_spec};

verus! {

/// The longest source file name, in bytes.
pub const MAX_SOURCE_FILE_NAME_BYTES: usize = 255;

/// Checks a request to read one media document.
pub fn validate_get_media_document_options(options: &GetMediaDocumentOptions) -> (result: Result<
    (),
    MediaServiceError,
>)
    ensures
        result is Ok <==> portable_id_spec(options.expected_project_id@, 160) && artifact_ref_spec(
            options.artifact_id@,
        ),
        result matches Err(error) ==> plain_media_error(
            error,
            MediaErrorCode::InvalidRequest,
            MediaOperation::ReadMediaDocument,
            "媒体文档读取请求的项目或 Artifact 标识无效。"@,
        ),
{
    if !portable_id(options.expected_project_id.as_str()) || !artifact_ref_is_valid(
        options.artifact_id.as_str(),
    ) {
        return Err(
            MediaServiceError::new(
                MediaErrorCode::InvalidRequest,
                MediaOperation::ReadMediaDocument,
                "媒体文档读取请求的项目或 Artifact 标识无效。",
            ),
        );
    }
    Ok(())
}


/// A media error with an owned message and no context.
fn media_error(code: MediaErrorCode, operation: MediaOperation, message: String) -> (error:
    MediaServiceError)
    ensures
        plain_media_error(error, code, operation, message@),
{
    MediaServiceError {
        code,
        operation,
        message,
        project_id: None,
        stage_id: None,
        run_id: None,
        artifact_id: None,
    }
}

/// Checks a frozen input reference of the stage `expected_stage_id`.
pub fn validate_frozen_stage_input(
    input: &FrozenArtifactInputData,
    expected_stage_id: &str,
    operation: MediaOperation,
) -> (result: Result<(), MediaServiceError>)
    ensures
        result is Ok <==> frozen_input_valid(*input, expected_stage_id@),
        result matches Err(error) ==> plain_media_error(
            error,
            MediaErrorCode::InvalidRequest,
            operation,
            expected_stage_id@ + " 冻结输入引用格式无效。"@,
        ),
{
    if !frozen_input_is_valid(input, expected_stage_id) {
        let mut message = String::from_str(expected_stage_id);
        message.append(" 冻结输入引用格式无效。");
        return Err(media_error(MediaErrorCode::InvalidRequest, operation, message));
    }
    Ok(())
}

/// Checks the frozen Script input of a media import.
pub fn validate_frozen_script_input(input: &FrozenArtifactInputData, operation: MediaOperation) -> (result:
    Result<(), MediaServiceError>)
    ensures
        result is Ok <==> frozen_input_valid(*input, "script"@),
        result matches Err(error) ==> plain_media_error(
            error,
            MediaErrorCode::InvalidRequest,
            operation,
            "Script 冻结输入引用格式无效。"@,
        ),
{
    if !frozen_input_is_valid(input, "script") {
        return Err(
            MediaServiceError::new(
                MediaErrorCode::InvalidRequest,
                operation,
                "Script 冻结输入引用格式无效。",
            ),
        );
    }
    Ok(())
}

/// Checks the frozen Audio input of a caption import.
pub fn validate_frozen_audio_input(input: &FrozenArtifactInputData, operation: MediaOperation) -> (result:
    Result<(), MediaServiceError>)
    ensures
        result is Ok <==> frozen_input_valid(*input, "audio"@),
        result matches Err(error) ==> plain_media_error(
            error,
            MediaErrorCode::InvalidRequest,
            operation,
            "Audio 冻结输入引用格式无效。"@,
        ),
{
    if !frozen_input_is_valid(input, "audio") {
        return Err(
            MediaServiceError::new(
                MediaErrorCode::InvalidRequest,
                operation,
                "Audio 冻结输入引用格式无效。",
            ),
        );
    }
    Ok(())
}

/// Three frozen inputs name three different artifacts.
pub open spec fn distinct_artifacts(
    a: FrozenArtifactInputData,
    b: FrozenArtifactInputData,
    c: FrozenArtifactInputData,
) -> bool {
    a.artifact_id@ != b.artifact_id@ && a.artifact_id@ != c.artifact_id@ && b.artifact_id@
        != c.artifact_id@
}

/// Whether three frozen inputs name three different artifacts.
fn artifacts_distinct(
    a: &FrozenArtifactInputData,
    b: &FrozenArtifactInputData,
    c: &FrozenArtifactInputData,
) -> (result: bool)
    ensures
        result == distinct_artifacts(*a, *b, *c),
{
    !same_text(a.artifact_id.as_str(), b.artifact_id.as_str()) && !same_text(
        a.artifact_id.as_str(),
        c.artifact_id.as_str(),
    ) && !same_text(b.artifact_id.as_str(), c.artifact_id.as_str())
}

/// A run identifier, a project identifier and an idempotency key that are all valid.
pub open spec fn request_identity_valid(run_id: Seq<char>, project_id: Seq<char>, key: Seq<char>) -> bool {
    run_id_spec(run_id) && portable_id_spec(project_id, 160) && idempotency_key_spec(key)
}

/// Why a timeline generation request is refused, if it is.
pub open spec fn generate_timeline_refusal(options: GenerateTimelineOptions) -> Option<Seq<char>> {
    if !request_identity_valid(
        options.run_id@,
        options.expected_project_id@,
        options.idempotency_key@,
    ) {
        Some("Timeline 请求标识或幂等键无效。"@)
    } else if !frozen_input_valid(options.audio_input, "audio"@) {
        Some("audio"@ + " 冻结输入引用格式无效。"@)
    } else if !frozen_input_valid(options.captions_input, "captions"@) {
        Some("captions"@ + " 冻结输入引用格式无效。"@)
    } else if !frozen_input_valid(options.scene_plan_input, "scene_plan"@) {
        Some("scene_plan"@ + " 冻结输入引用格式无效。"@)
    } else if !distinct_artifacts(options.audio_input, options.captions_input, options.scene_plan_input)
        || !canvas_valid(options.canvas) || !safe_area_valid(options.safe_area, options.canvas) {
        Some("Timeline 冻结输入、canvas 或 safeArea 无效。"@)
    } else {
        None
    }
}

/// Checks a timeline generation request: identities, the three frozen
/// inputs, that they name different artifacts, the canvas and the safe area.
pub fn validate_generate_timeline_options(options: &GenerateTimelineOptions) -> (result: Result<
    (),
    MediaServiceError,
>)
    ensures
        result is Ok <==> generate_timeline_refusal(*options) is None,
        result matches Err(error) ==> plain_media_error(
            error,
            MediaErrorCode::InvalidRequest,
            MediaOperation::GenerateTimeline,
            generate_timeline_refusal(*options).unwrap(),
        ),
{
    proof {
        reveal_strlit("audio");
        reveal_strlit("captions");
        reveal_strlit("scene_plan");
    }
    let operation = MediaOperation::GenerateTimeline;
    if !run_id_is_valid(options.run_id.as_str()) || !portable_id(
        options.expected_project_id.as_str(),
    ) || !valid_idempotency_key(options.idempotency_key.as_str()) {
        return Err(
            MediaServiceError::new(
                MediaErrorCode::InvalidRequest,
                operation,
                "Timeline 请求标识或幂等键无效。",
            ),
        );
    }
    validate_frozen_stage_input(&options.audio_input, "audio", operation)?;
    validate_frozen_stage_input(&options.captions_input, "captions", operation)?;
    validate_frozen_stage_input(&options.scene_plan_input, "scene_plan", operation)?;
    let canvas_ok = crate::timeline::validate_canvas(options.canvas).is_ok();
    let safe_ok = crate::timeline::validate_safe_area(options.safe_area, options.canvas).is_ok();
    if !artifacts_distinct(&options.audio_input, &options.captions_input, &options.scene_plan_input)
        || !canvas_ok || !safe_ok {
        return Err(
            MediaServiceError::new(
                MediaErrorCode::InvalidRequest,
                operation,
                "Timeline 冻结输入、canvas 或 safeArea 无效。",
            ),
        );
    }
    Ok(())
}

/// Why a scene plan generation request is refused, if it is.
pub open spec fn generate_scene_plan_refusal(options: GenerateScenePlanOptions) -> Option<Seq<char>> {
    if !request_identity_valid(
        options.run_id@,
        options.expected_project_id@,
        options.idempotency_key@,
    ) {
        Some("Scene Plan 请求标识或幂等键无效。"@)
    } else if !frozen_input_valid(options.research_input, "research"@) {
        Some("research"@ + " 冻结输入引用格式无效。"@)
    } else if !frozen_input_valid(options.script_input, "script"@) {
        Some("script"@ + " 冻结输入引用格式无效。"@)
    } else if !frozen_input_valid(options.captions_input, "captions"@) {
        Some("captions"@ + " 冻结输入引用格式无效。"@)
    } else if !distinct_artifacts(options.research_input, options.script_input, options.captions_input) {
        Some("Scene Plan 的 Research/Script/Captions 必须引用不同 Artifact。"@)
    } else {
        None
    }
}

/// Checks a scene plan generation request: identities, the three frozen
/// inputs, and that they name different artifacts.
pub fn validate_generate_scene_plan_options(options: &GenerateScenePlanOptions) -> (result: Result<
    (),
    MediaServiceError,
>)
    ensures
        result is Ok <==> generate_scene_plan_refusal(*options) is None,
        result matches Err(error) ==> plain_media_error(
            error,
            MediaErrorCode::InvalidRequest,
            MediaOperation::GenerateScenePlan,
            generate_scene_plan_refusal(*options).unwrap(),
        ),
{
    proof {
        reveal_strlit("research");
        reveal_strlit("script");
        reveal_strlit("captions");
    }
    let operation = MediaOperation::GenerateScenePlan;
    if !run_id_is_valid(options.run_id.as_str()) || !portable_id(
        options.expected_project_id.as_str(),
    ) || !valid_idempotency_key(options.idempotency_key.as_str()) {
        return Err(
            MediaServiceError::new(
                MediaErrorCode::InvalidRequest,
                operation,
                "Scene Plan 请求标识或幂等键无效。",
            ),
        );
    }
    validate_frozen_stage_input(&options.research_input, "research", operation)?;
    validate_frozen_stage_input(&options.script_input, "script", operation)?;
    validate_frozen_stage_input(&options.captions_input, "captions", operation)?;
    if !artifacts_distinct(&options.research_input, &options.script_input, &options.captions_input) {
        return Err(
            MediaServiceError::new(
                MediaErrorCode::InvalidRequest,
                operation,
                "Scene Plan 的 Research/Script/Captions 必须引用不同 Artifact。",
            ),
        );
    }
    Ok(())
}

/// A save request's identities, base artifact, 1 to 1000 edits, bounded
/// summary and idempotency key are all valid.
pub open spec fn save_request_valid(
    run_id: Seq<char>,
    project_id: Seq<char>,
    base_artifact_id: Seq<char>,
    edit_count: int,
    change_summary: Seq<char>,
    key: Seq<char>,
) -> bool {
    &&& run_id_spec(run_id)
    &&& portable_id_spec(project_id, 160)
    &&& artifact_ref_spec(base_artifact_id)
    &&& 0 < edit_count <= 1000
    &&& valid_bounded_text_spec(change_summary, 2048, false)
    &&& idempotency_key_spec(key)
}

/// Checks a scene plan save request.
pub fn validate_save_scene_plan_options(options: &SaveScenePlanOptions) -> (result: Result<
    (),
    MediaServiceError,
>)
    ensures
        result is Ok <==> save_request_valid(
            options.run_id@,
            options.expected_project_id@,
            options.base_artifact_id@,
            options.edits@.len() as int,
            options.change_summary@,
            options.idempotency_key@,
        ),
        result matches Err(error) ==> plain_media_error(
            error,
            MediaErrorCode::InvalidRequest,
            MediaOperation::SaveScenePlan,
            "Scene Plan 保存请求无效或超过资源上限。"@,
        ),
{
    if !run_id_is_valid(options.run_id.as_str()) || !portable_id(
        options.expected_project_id.as_str(),
    ) || !artifact_ref_is_valid(options.base_artifact_id.as_str()) || options.edits.len() == 0
        || options.edits.len() > 1000 || !valid_bounded_text(
        options.change_summary.as_str(),
        2048,
        false,
    ) || !valid_idempotency_key(options.idempotency_key.as_str()) {
        return Err(
            MediaServiceError::new(
                MediaErrorCode::InvalidRequest,
                MediaOperation::SaveScenePlan,
                "Scene Plan 保存请求无效或超过资源上限。",
            ),
        );
    }
    Ok(())
}

/// Checks a timeline save request.
pub fn validate_save_timeline_options(options: &SaveTimelineOptions) -> (result: Result<
    (),
    MediaServiceError,
>)
    ensures
        result is Ok <==> save_request_valid(
            options.run_id@,
            options.expected_project_id@,
            options.base_artifact_id@,
            options.edits@.len() as int,
            options.change_summary@,
            options.idempotency_key@,
        ),
        result matches Err(error) ==> plain_media_error(
            error,
            MediaErrorCode::InvalidRequest,
            MediaOperation::SaveTimeline,
            "Timeline 保存请求无效或超过资源上限。"@,
        ),
{
    if !run_id_is_valid(options.run_id.as_str()) || !portable_id(
        options.expected_project_id.as_str(),
    ) || !artifact_ref_is_valid(options.base_artifact_id.as_str()) || options.edits.len() == 0
        || options.edits.len() > 1000 || !valid_bounded_text(
        options.change_summary.as_str(),
        2048,
        false,
    ) || !valid_idempotency_key(options.idempotency_key.as_str()) {
        return Err(
            MediaServiceError::new(
                MediaErrorCode::InvalidRequest,
                MediaOperation::SaveTimeline,
                "Timeline 保存请求无效或超过资源上限。",
            ),
        );
    }
    Ok(())
}

/// Why the rights of a media source are refused, if they are: a voice-clone
/// authorization, or an incomplete or unbounded rights statement.
pub open spec fn rights_refusal(rights: MediaRightsData) -> Option<(MediaErrorCode, Seq<char>)> {
    if rights.voice_authorization.applicability@ != "not_voice_clone"@ {
        Some((MediaErrorCode::VoiceCloneNotAllowed, "当前媒体导入不允许声音克隆授权。"@))
    } else if !(rights.ownership@ == "self_recorded"@ || rights.ownership@ == "licensed"@)
        || !valid_bounded_text_spec(rights.author@, 256, false) || !valid_bounded_text_spec(
        rights.rights_statement@,
        2048,
        false,
    ) || !valid_bounded_text_spec(rights.license_id@, 256, false) || !valid_bounded_text_spec(
        rights.attribution_text@,
        2048,
        true,
    ) {
        Some((MediaErrorCode::RightsRequired, "媒体来源必须包含完整且有界的权利声明。"@))
    } else {
        None
    }
}

/// Media may be imported as recorded by oneself or as licensed, on the same
/// terms: two rights that differ only in that one is "self_recorded" and the
/// other "licensed" are refused alike (so complete, bounded "licensed" rights
/// with a not-voice-clone authorization are accepted), and rights of any other
/// ownership are refused.
pub proof fn lemma_licensed_rights_as_self_recorded(own: MediaRightsData, licensed: MediaRightsData)
    requires
        own.ownership@ == "self_recorded"@,
        licensed.ownership@ == "licensed"@,
        licensed.author@ == own.author@,
        licensed.rights_statement@ == own.rights_statement@,
        licensed.license_id@ == own.license_id@,
        licensed.attribution_text@ == own.attribution_text@,
        licensed.voice_authorization.applicability@ == own.voice_authorization.applicability@,
    ensures
        rights_refusal(own) == rights_refusal(licensed),
        forall|other: MediaRightsData|
            #![trigger rights_refusal(other)]
            other.ownership@ != "self_recorded"@ && other.ownership@ != "licensed"@ ==> rights_refusal(
                other,
            ) is Some,
{
}

/// Checks the rights under which a media source is imported.
pub fn validate_rights(rights: &MediaRightsData, operation: MediaOperation) -> (result: Result<
    (),
    MediaServiceError,
>)
    ensures
        result is Ok <==> rights_refusal(*rights) is None,
        result matches Err(error) ==> plain_media_error(
            error,
            rights_refusal(*rights).unwrap().0,
            operation,
            rights_refusal(*rights).unwrap().1,
        ),
{
    if !same_text(rights.voice_authorization.applicability.as_str(), "not_voice_clone") {
        return Err(
            MediaServiceError::new(
                MediaErrorCode::VoiceCloneNotAllowed,
                operation,
                "当前媒体导入不允许声音克隆授权。",
            ),
        );
    }
    if !(same_text(rights.ownership.as_str(), "self_recorded") || same_text(
        rights.ownership.as_str(),
        "licensed",
    )) || !valid_bounded_text(rights.author.as_str(), 256, false) || !valid_bounded_text(
        rights.rights_statement.as_str(),
        2048,
        false,
    ) || !valid_bounded_text(rights.license_id.as_str(), 256, false) || !valid_bounded_text(
        rights.attribution_text.as_str(),
        2048,
        true,
    ) {
        return Err(
            MediaServiceError::new(
                MediaErrorCode::RightsRequired,
                operation,
                "媒体来源必须包含完整且有界的权利声明。",
            ),
        );
    }
    Ok(())
}


/// `c` in ASCII uppercase.
pub open spec fn ascii_upper(c: char) -> char {
    if 'a' <= c && c <= 'z' {
        ((c as u32) - 32) as char
    } else {
        c
    }
}

/// `s` in ASCII uppercase.
pub open spec fn ascii_upper_text(s: Seq<char>) -> Seq<char> {
    s.map_values(|c: char| ascii_upper(c))
}

/// An uppercase stem that Windows reserves for a device: `CON`, `PRN`, `AUX`,
/// `NUL`, or `COM`/`LPT` followed by one digit 1 to 9.
pub open spec fn reserved_device_stem(stem: Seq<char>) -> bool {
    ||| stem == "CON"@ || stem == "PRN"@ || stem == "AUX"@ || stem == "NUL"@
    ||| stem.len() == 4 && (stem.take(3) == "COM"@ || stem.take(3) == "LPT"@) && '1' <= stem[3]
        && stem[3] <= '9'
}

/// The part of a file name before its first dot names a Windows device.
pub open spec fn windows_reserved_spec(file_name: Seq<char>) -> bool {
    reserved_device_stem(ascii_upper_text(split_spec(file_name, '.')[0]))
}

/// The part of `file_name` before its first dot, in ASCII uppercase.
pub fn upper_stem(file_name: &str) -> (stem: Vec<char>)
    ensures
        stem@ == ascii_upper_text(split_spec(file_name@, '.')[0]),
{
    let chars = chars_of(file_name);
    let pieces = split_chars(&chars, '.');
    assert(pieces@.map_values(|p: Vec<char>| p@).len() == pieces@.len());
    assert(split_spec(chars@, '.').len() > 0);
    let first = &pieces[0];
    assert(first@ == split_spec(file_name@, '.')[0]) by {
        assert(pieces@.map_values(|p: Vec<char>| p@)[0] == pieces@[0]@);
    }
    let mut stem: Vec<char> = Vec::new();
    let mut i: usize = 0;
    while i < first.len()
        invariant
            0 <= i <= first@.len(),
            stem@ == ascii_upper_text(first@.take(i as int)),
        decreases first@.len() - i,
    {
        let c = first[i];
        let u = if 'a' <= c && c <= 'z' {
            ((c as u32) - 32) as u8 as char
        } else {
            c
        };
        assert(u == ascii_upper(c));
        stem.push(u);
        assert(ascii_upper_text(first@.take(i + 1)) =~= ascii_upper_text(first@.take(i as int)).push(
            ascii_upper(c),
        ));
        i = i + 1;
    }
    assert(first@.take(first@.len() as int) =~= first@);
    assert(stem@ == ascii_upper_text(split_spec(file_name@, '.')[0]));
    stem
}

/// Whether an uppercase stem names a Windows device.
pub fn reserved_stem(stem: &[char]) -> (result: bool)
    ensures
        result == reserved_device_stem(stem@),
{
    proof {
        reveal_strlit("CON");
        reveal_strlit("PRN");
        reveal_strlit("AUX");
        reveal_strlit("NUL");
        reveal_strlit("COM");
        reveal_strlit("LPT");
    }
    let n = stem.len();
    if n == 3 {
        let a = stem[0];
        let b = stem[1];
        let c = stem[2];
        let word = (a == 'C' && b == 'O' && c == 'N') || (a == 'P' && b == 'R' && c == 'N') || (
        a == 'A' && b == 'U' && c == 'X') || (a == 'N' && b == 'U' && c == 'L');
        proof {
            assert(stem@ =~= seq![a, b, c]);
            lemma_three_chars(a, b, c, 'C', 'O', 'N');
            lemma_three_chars(a, b, c, 'P', 'R', 'N');
            lemma_three_chars(a, b, c, 'A', 'U', 'X');
            lemma_three_chars(a, b, c, 'N', 'U', 'L');
            assert("CON"@ =~= seq!['C', 'O', 'N']);
            assert("PRN"@ =~= seq!['P', 'R', 'N']);
            assert("AUX"@ =~= seq!['A', 'U', 'X']);
            assert("NUL"@ =~= seq!['N', 'U', 'L']);
        }
        assert(word == reserved_device_stem(stem@));
        word
    } else if n == 4 {
        let a = stem[0];
        let b = stem[1];
        let c = stem[2];
        let d = stem[3];
        let port = ((a == 'C' && b == 'O' && c == 'M') || (a == 'L' && b == 'P' && c == 'T'))
            && '1' <= d && d <= '9';
        proof {
            assert(stem@.take(3) =~= seq![a, b, c]);
            lemma_three_chars(a, b, c, 'C', 'O', 'M');
            lemma_three_chars(a, b, c, 'L', 'P', 'T');
            assert("COM"@ =~= seq!['C', 'O', 'M']);
            assert("LPT"@ =~= seq!['L', 'P', 'T']);
            assert(stem@ != "CON"@ && stem@ != "PRN"@ && stem@ != "AUX"@ && stem@ != "NUL"@);
        }
        assert(port == reserved_device_stem(stem@));
        port
    } else {
        proof {
            assert(stem@ != "CON"@ && stem@ != "PRN"@ && stem@ != "AUX"@ && stem@ != "NUL"@);
        }
        false
    }
}


/// Whether the stem of `file_name` names a Windows device.
pub fn is_windows_reserved_basename(file_name: &str) -> (result: bool)
    ensures
        result == windows_reserved_spec(file_name@),
{
    let stem = upper_stem(file_name);
    reserved_stem(stem.as_slice())
}

/// Three characters equal three others exactly when each does.
proof fn lemma_three_chars(a: char, b: char, c: char, x: char, y: char, z: char)
    ensures
        (seq![a, b, c] == seq![x, y, z]) == (a == x && b == y && c == z),
{
    if seq![a, b, c] == seq![x, y, z] {
        assert(seq![a, b, c][0] == seq![x, y, z][0]);
        assert(seq![a, b, c][1] == seq![x, y, z][1]);
        assert(seq![a, b, c][2] == seq![x, y, z][2]);
    }
    if a == x && b == y && c == z {
        assert(seq![a, b, c] =~= seq![x, y, z]);
    }
}

/// A character that a portable source file name may not hold.
pub open spec fn forbidden_name_char(c: char) -> bool {
    is_control_spec(c) || c == '/' || c == '\\' || c == '\0' || c == ':' || c == '*' || c == '?'
        || c == '"' || c == '<' || c == '>' || c == '|'
}

/// A portable source file name: not empty, `.` or `..`, at most 255 bytes,
/// not ending in a dot or space, without control or path characters, and not
/// a Windows device name.
pub open spec fn source_name_acceptable(name: Seq<char>) -> bool {
    &&& name.len() > 0
    &&& name != "."@
    &&& name != ".."@
    &&& encode_utf8(name).len() <= MAX_SOURCE_FILE_NAME_BYTES
    &&& name.last() != '.'
    &&& name.last() != ' '
    &&& forall|i: int| 0 <= i < name.len() ==> !forbidden_name_char(#[trigger] name[i])
    &&& !windows_reserved_spec(name)
}

/// The error for a source file name that is not portable.
pub fn invalid_source_name(operation: MediaOperation) -> (error: MediaServiceError)
    ensures
        plain_media_error(
            error,
            MediaErrorCode::InvalidSourceName,
            operation,
            "媒体源文件名不满足可移植安全规则。"@,
        ),
{
    MediaServiceError::new(
        MediaErrorCode::InvalidSourceName,
        operation,
        "媒体源文件名不满足可移植安全规则。",
    )
}

/// The source file name (the last component of the source path, when it is
/// valid Unicode), if it is portable.
pub fn safe_source_basename(file_name: Option<&str>, operation: MediaOperation) -> (result: Result<
    String,
    MediaServiceError,
>)
    ensures
        result is Ok <==> (file_name matches Some(name) && source_name_acceptable(name@)),
        result matches Ok(name) ==> file_name matches Some(given) && name@ == given@,
        result matches Err(error) ==> plain_media_error(
            error,
            MediaErrorCode::InvalidSourceName,
            operation,
            "媒体源文件名不满足可移植安全规则。"@,
        ),
{
    proof {
        reveal_strlit(".");
        reveal_strlit("..");
    }
    let name = match file_name {
        Some(name) => name,
        None => {
            return Err(invalid_source_name(operation));
        },
    };
    let chars = chars_of(name);
    let bytes = name.as_bytes();
    if chars.len() == 0 || same_text(name, ".") || same_text(name, "..") || bytes.len()
        > MAX_SOURCE_FILE_NAME_BYTES || chars[chars.len() - 1] == '.' || chars[chars.len() - 1]
        == ' ' {
        return Err(invalid_source_name(operation));
    }
    let mut i: usize = 0;
    while i < chars.len()
        invariant
            chars@ == name@,
            file_name == Some(name),
            0 <= i <= chars@.len(),
            forall|j: int| 0 <= j < i ==> !forbidden_name_char(#[trigger] chars@[j]),
        decreases chars@.len() - i,
    {
        let c = chars[i];
        if is_control(c) || c == '/' || c == '\\' || c == '\0' || c == ':' || c == '*' || c == '?'
            || c == '"' || c == '<' || c == '>' || c == '|' {
            assert(forbidden_name_char(name@[i as int]));
            return Err(invalid_source_name(operation));
        }
        i = i + 1;
    }
    if is_windows_reserved_basename(name) {
        return Err(invalid_source_name(operation));
    }
    Ok(name.to_owned())
}

/// Why a source hash check fails, if it does: a malformed hash, or a frozen
/// expectation that the actual hash does not meet.
pub open spec fn source_hash_refusal(expected: Option<Seq<char>>, actual: Seq<char>) -> Option<
    (MediaErrorCode, Seq<char>),
> {
    if !sha256_ref_spec(actual) || (expected matches Some(e) && !sha256_ref_spec(e)) {
        Some(
            (
                MediaErrorCode::InvalidRequest,
                "源内容哈希必须使用 sha256:<64位小写十六进制>。"@,
            ),
        )
    } else if expected matches Some(e) && e != actual {
        Some((MediaErrorCode::SourceHashMismatch, "媒体源内容哈希与调用方冻结值不一致。"@))
    } else {
        None
    }
}

/// The text of an optional string slice.
pub open spec fn opt_str_view(value: Option<&str>) -> Option<Seq<char>> {
    match value {
        Some(text) => Some(text@),
        None => None,
    }
}

/// Checks a source's content hash against the caller's frozen expectation.
pub fn validate_expected_source_hash(
    expected: Option<&str>,
    actual: &str,
    operation: MediaOperation,
) -> (result: Result<(), MediaServiceError>)
    ensures
        result is Ok <==> source_hash_refusal(opt_str_view(expected), actual@) is None,
        result matches Err(error) ==> plain_media_error(
            error,
            source_hash_refusal(opt_str_view(expected), actual@).unwrap().0,
            operation,
            source_hash_refusal(opt_str_view(expected), actual@).unwrap().1,
        ),
{
    let expected_valid = match expected {
        Some(value) => is_sha256(value),
        None => true,
    };
    if !is_sha256(actual) || !expected_valid {
        return Err(
            MediaServiceError::new(
                MediaErrorCode::InvalidRequest,
                operation,
                "源内容哈希必须使用 sha256:<64位小写十六进制>。",
            ),
        );
    }
    let matches = match expected {
        Some(value) => same_text(value, actual),
        None => true,
    };
    if !matches {
        return Err(
            MediaServiceError::new(
                MediaErrorCode::SourceHashMismatch,
                operation,
                "媒体源内容哈希与调用方冻结值不一致。",
            ),
        );
    }
    Ok(())
}


/// The media error code that a project error code is reported as.
pub open spec fn media_code_for_project(code: ProjectErrorCode) -> MediaErrorCode {
    match code {
        ProjectErrorCode::InvalidRequest | ProjectErrorCode::InvalidName
        | ProjectErrorCode::InvalidPath | ProjectErrorCode::PathContainsSymlink => {
            MediaErrorCode::InvalidRequest
        },
        ProjectErrorCode::CopyTooLarge => MediaErrorCode::ResourceLimitExceeded,
        _ => MediaErrorCode::StorageUnavailable,
    }
}

/// Reports a failure to open the project of a media request.
pub fn map_project_error(error: ProjectServiceError, operation: MediaOperation) -> (mapped:
    MediaServiceError)
    ensures
        plain_media_error(
            mapped,
            media_code_for_project(error.code),
            operation,
            "无法打开 Audio 请求所属项目。"@,
        ),
{
    let code = match error.code {
        ProjectErrorCode::InvalidRequest | ProjectErrorCode::InvalidName
        | ProjectErrorCode::InvalidPath | ProjectErrorCode::PathContainsSymlink => {
            MediaErrorCode::InvalidRequest
        },
        ProjectErrorCode::CopyTooLarge => MediaErrorCode::ResourceLimitExceeded,
        ProjectErrorCode::ProjectNotFound | ProjectErrorCode::MarkerMissing
        | ProjectErrorCode::MarkerTooLarge | ProjectErrorCode::InvalidProject
        | ProjectErrorCode::MigrationRequired | ProjectErrorCode::MigrationConflict
        | ProjectErrorCode::UnsupportedNewerVersion | ProjectErrorCode::MigrationFailed
        | ProjectErrorCode::DestinationExists | ProjectErrorCode::IoError
        | ProjectErrorCode::TrashFailed | ProjectErrorCode::InternalContractError => {
            MediaErrorCode::StorageUnavailable
        },
    };
    MediaServiceError::new(code, operation, "无法打开 Audio 请求所属项目。")
}

/// The media error code that a storage error code is reported as.
pub open spec fn media_code_for_storage(code: StorageErrorCode) -> MediaErrorCode {
    match code {
        StorageErrorCode::ProjectIdentityMismatch => MediaErrorCode::CrossProjectReference,
        StorageErrorCode::SourceChanged => MediaErrorCode::SourceChanged,
        StorageErrorCode::SourceTooLarge | StorageErrorCode::ArtifactTooLarge
        | StorageErrorCode::ScanLimitExceeded => MediaErrorCode::ResourceLimitExceeded,
        StorageErrorCode::ArtifactNotFound | StorageErrorCode::ContentCorrupt => {
            MediaErrorCode::ArtifactVerificationFailed
        },
        StorageErrorCode::ArtifactConflict => MediaErrorCode::IdempotencyConflict,
        StorageErrorCode::InvalidRequest | StorageErrorCode::InvalidPath
        | StorageErrorCode::PathContainsSymlink | StorageErrorCode::InvalidArtifact => {
            MediaErrorCode::InvalidRequest
        },
        StorageErrorCode::SourceNotFound | StorageErrorCode::IoError => MediaErrorCode::Io,
        _ => MediaErrorCode::StorageUnavailable,
    }
}

/// Reports a storage failure of a media operation, keeping only the
/// artifact it concerns as context.
pub fn map_storage_error(error: StorageServiceError, operation: MediaOperation) -> (mapped:
    MediaServiceError)
    ensures
        mapped.code == media_code_for_storage(error.code),
        mapped.operation == operation,
        mapped.message@ == "媒体 Artifact 操作失败。"@,
        mapped.project_id is None,
        mapped.stage_id is None,
        mapped.run_id is None,
        opt_view(mapped.artifact_id) == opt_view(error.artifact_id),
{
    let code = match error.code {
        StorageErrorCode::ProjectIdentityMismatch => MediaErrorCode::CrossProjectReference,
        StorageErrorCode::SourceChanged => MediaErrorCode::SourceChanged,
        StorageErrorCode::SourceTooLarge | StorageErrorCode::ArtifactTooLarge
        | StorageErrorCode::ScanLimitExceeded => MediaErrorCode::ResourceLimitExceeded,
        StorageErrorCode::ArtifactNotFound | StorageErrorCode::ContentCorrupt => {
            MediaErrorCode::ArtifactVerificationFailed
        },
        StorageErrorCode::ArtifactConflict => MediaErrorCode::IdempotencyConflict,
        StorageErrorCode::InvalidRequest | StorageErrorCode::InvalidPath
        | StorageErrorCode::PathContainsSymlink | StorageErrorCode::InvalidArtifact => {
            MediaErrorCode::InvalidRequest
        },
        StorageErrorCode::SourceNotFound | StorageErrorCode::IoError => MediaErrorCode::Io,
        StorageErrorCode::ProjectNotFound | StorageErrorCode::InvalidProject
        | StorageErrorCode::MigrationRequired | StorageErrorCode::UnsupportedNewerVersion
        | StorageErrorCode::IndexUnavailable | StorageErrorCode::IndexMigrationFailed
        | StorageErrorCode::CacheCleanupFailed | StorageErrorCode::InternalContractError => {
            MediaErrorCode::StorageUnavailable
        },
    };
    let artifact_id = match &error.artifact_id {
        Some(id) => Some(id.as_str()),
        None => None,
    };
    MediaServiceError::new(code, operation, "媒体 Artifact 操作失败。").with_safe_context(
        None,
        None,
        None,
        artifact_id,
    )
}

/// The media error code that a timeline error code is reported as.
pub open spec fn media_code_for_timeline(code: TimelineDomainErrorCode) -> MediaErrorCode {
    match code {
        TimelineDomainErrorCode::InvalidRequest | TimelineDomainErrorCode::InvalidEdit => {
            MediaErrorCode::InvalidRequest
        },
        TimelineDomainErrorCode::InvalidInput => MediaErrorCode::InputReferenceMismatch,
        TimelineDomainErrorCode::InvalidTimeline | TimelineDomainErrorCode::ContractViolation => {
            MediaErrorCode::ContractViolation
        },
        TimelineDomainErrorCode::ResourceLimitExceeded => MediaErrorCode::ResourceLimitExceeded,
    }
}

/// Reports a refused timeline operation as a media error with its message.
pub fn map_timeline_error(error: TimelineDomainError, operation: MediaOperation) -> (mapped:
    MediaServiceError)
    ensures
        plain_media_error(mapped, media_code_for_timeline(error.code), operation, error.message@),
{
    let code = match error.code {
        TimelineDomainErrorCode::InvalidRequest | TimelineDomainErrorCode::InvalidEdit => {
            MediaErrorCode::InvalidRequest
        },
        TimelineDomainErrorCode::InvalidInput => MediaErrorCode::InputReferenceMismatch,
        TimelineDomainErrorCode::InvalidTimeline | TimelineDomainErrorCode::ContractViolation => {
            MediaErrorCode::ContractViolation
        },
        TimelineDomainErrorCode::ResourceLimitExceeded => MediaErrorCode::ResourceLimitExceeded,
    };
    media_error(code, operation, error.message)
}

/// Why scene plan building was refused.
#[derive(Debug, Clone, Copy, PartialEq, Eq, Structural)]
pub enum ScenePlanErrorCode {
    InvalidRequest,
    InvalidCaptions,
    InvalidScenePlan,
    InvalidEdit,
    ResourceLimitExceeded,
    ContractViolation,
}

/// A refused scene plan operation.
#[derive(Debug, Clone, PartialEq, Eq)]
pub struct ScenePlanError {
    pub code: ScenePlanErrorCode,
    pub message: String,
}

/// The media error code that a scene plan error code is reported as.
pub open spec fn media_code_for_scene_plan(code: ScenePlanErrorCode) -> MediaErrorCode {
    match code {
        ScenePlanErrorCode::InvalidRequest | ScenePlanErrorCode::InvalidEdit => {
            MediaErrorCode::InvalidRequest
        },
        ScenePlanErrorCode::InvalidCaptions => MediaErrorCode::InputReferenceMismatch,
        ScenePlanErrorCode::InvalidScenePlan | ScenePlanErrorCode::ContractViolation => {
            MediaErrorCode::ContractViolation
        },
        ScenePlanErrorCode::ResourceLimitExceeded => MediaErrorCode::ResourceLimitExceeded,
    }
}

/// Reports a refused scene plan operation as a media error with its message.
pub fn map_scene_plan_error(error: ScenePlanError, operation: MediaOperation) -> (mapped:
    MediaServiceError)
    ensures
        plain_media_error(mapped, media_code_for_scene_plan(error.code), operation, error.message@),
{
    let code = match error.code {
        ScenePlanErrorCode::InvalidRequest | ScenePlanErrorCode::InvalidEdit => {
            MediaErrorCode::InvalidRequest
        },
        ScenePlanErrorCode::InvalidCaptions => MediaErrorCode::InputReferenceMismatch,
        ScenePlanErrorCode::InvalidScenePlan | ScenePlanErrorCode::ContractViolation => {
            MediaErrorCode::ContractViolation
        },
        ScenePlanErrorCode::ResourceLimitExceeded => MediaErrorCode::ResourceLimitExceeded,
    };
    media_error(code, operation, error.message)
}

/// Why parsing a media source failed.
#[derive(Debug, Clone, Copy, PartialEq, Eq, Structural)]
pub enum MediaParseErrorCode {
    InvalidWav,
    InvalidUtf8,
    InvalidSrt,
    Unsupported,
    ResourceLimitExceeded,
    Io,
}

/// A failed media source parse.
#[derive(Debug, Clone, PartialEq, Eq)]
pub struct MediaParseError {
    pub code: MediaParseErrorCode,
    pub message: String,
}

/// The media error code that a parse error code is reported as.
pub open spec fn media_code_for_parse(code: MediaParseErrorCode) -> MediaErrorCode {
    match code {
        MediaParseErrorCode::ResourceLimitExceeded => MediaErrorCode::ResourceLimitExceeded,
        MediaParseErrorCode::Io => MediaErrorCode::Io,
        _ => MediaErrorCode::InvalidMedia,
    }
}

/// Reports a failed source parse without its details.
pub fn map_media_parse_error(error: MediaParseError, operation: MediaOperation) -> (mapped:
    MediaServiceError)
    ensures
        plain_media_error(
            mapped,
            media_code_for_parse(error.code),
            operation,
            "媒体源未通过有界格式校验。"@,
        ),
{
    let code = match error.code {
        MediaParseErrorCode::ResourceLimitExceeded => MediaErrorCode::ResourceLimitExceeded,
        MediaParseErrorCode::Io => MediaErrorCode::Io,
        MediaParseErrorCode::InvalidWav | MediaParseErrorCode::InvalidUtf8
        | MediaParseErrorCode::InvalidSrt | MediaParseErrorCode::Unsupported => {
            MediaErrorCode::InvalidMedia
        },
    };
    MediaServiceError::new(code, operation, "媒体源未通过有界格式校验。")
}

/// Whether a failed media save may succeed when tried again.
pub fn media_save_error_is_retryable(code: MediaErrorCode) -> (retryable: bool)
    ensures
        retryable == (code == MediaErrorCode::Io || code == MediaErrorCode::StorageUnavailable),
{
    match code {
        MediaErrorCode::Io | MediaErrorCode::StorageUnavailable => true,
        _ => false,
    }
}

/// The error for an artifact that is not a supported media document with a
/// complete identity closure.
pub fn invalid_media_document_artifact(operation: MediaOperation) -> (error: MediaServiceError)
    ensures
        plain_media_error(
            error,
            MediaErrorCode::InputReferenceMismatch,
            operation,
            "Artifact 不是受支持且身份闭包完整的媒体文档产物。"@,
        ),
{
    MediaServiceError::new(
        MediaErrorCode::InputReferenceMismatch,
        operation,
        "Artifact 不是受支持且身份闭包完整的媒体文档产物。",
    )
}

/// The error for an idempotency receipt whose artifact fails verification.
pub fn invalid_replay_artifact(operation: MediaOperation) -> (error: MediaServiceError)
    ensures
        plain_media_error(
            error,
            MediaErrorCode::ArtifactVerificationFailed,
            operation,
            "媒体幂等 receipt 指向的不可变 Artifact 无法通过校验。"@,
        ),
{
    MediaServiceError::new(
        MediaErrorCode::ArtifactVerificationFailed,
        operation,
        "媒体幂等 receipt 指向的不可变 Artifact 无法通过校验。",
    )
}

/// An approved input as a workflow run records it.
#[derive(Debug, Clone, PartialEq, Eq)]
pub struct ApprovedArtifactInputData {
    pub ref_id: String,
    pub kind: String,
    pub artifact_id: String,
    pub source_run_id: String,
    pub review_record_id: String,
    pub content_hash: String,
    pub claim_ids: Vec<String>,
    pub evidence_refs: Vec<String>,
}

/// The approved-input record of a frozen input under `ref_id` and `kind`.
pub fn approved_input(input: &FrozenArtifactInputData, ref_id: &str, kind: &str) -> (approved:
    ApprovedArtifactInputData)
    ensures
        approved.ref_id@ == ref_id@,
        approved.kind@ == kind@,
        approved.artifact_id == input.artifact_id,
        approved.source_run_id == input.run_id,
        approved.review_record_id == input.review_record_id,
        approved.content_hash == input.content_hash,
        approved.claim_ids@ == input.claim_ids@,
        approved.evidence_refs@ == input.evidence_refs@,
{
    ApprovedArtifactInputData {
        ref_id: ref_id.to_owned(),
        kind: kind.to_owned(),
        artifact_id: input.artifact_id.clone(),
        source_run_id: input.run_id.clone(),
        review_record_id: input.review_record_id.clone(),
        content_hash: input.content_hash.clone(),
        claim_ids: crate::text::copy_texts(&input.claim_ids),
        evidence_refs: crate::text::copy_texts(&input.evidence_refs),
    }
}


/// Why a workflow operation was refused.
#[derive(Debug, Clone, Copy, PartialEq, Eq, Structural)]
pub enum WorkflowErrorCode {
    InvalidRequest,
    InvalidPath,
    PathContainsSymlink,
    ProjectNotFound,
    ProjectIdentityMismatch,
    InvalidProject,
    MigrationRequired,
    UnsupportedNewerVersion,
    WorkflowNotInitialized,
    UnsupportedWorkflow,
    InvalidStageGraph,
    ConfigConflict,
    StageNotFound,
    StageNotReady,
    RunNotFound,
    RunConflict,
    ArtifactMismatch,
    ReviewConflict,
    ImmutableConflict,
    ScanLimitExceeded,
    IoError,
    InternalContractError,
}

/// A refused workflow operation, with the stage and run it concerns.
#[derive(Debug, Clone, PartialEq, Eq)]
pub struct WorkflowServiceError {
    pub code: WorkflowErrorCode,
    pub message: String,
    pub stage_id: Option<String>,
    pub run_id: Option<String>,
}

/// The media error code that a workflow error code is reported as.
pub open spec fn media_code_for_workflow(code: WorkflowErrorCode) -> MediaErrorCode {
    match code {
        WorkflowErrorCode::ProjectIdentityMismatch => MediaErrorCode::CrossProjectReference,
        WorkflowErrorCode::StageNotReady | WorkflowErrorCode::ReviewConflict
        | WorkflowErrorCode::RunNotFound => MediaErrorCode::InputNotApproved,
        WorkflowErrorCode::ArtifactMismatch | WorkflowErrorCode::RunConflict
        | WorkflowErrorCode::ImmutableConflict => MediaErrorCode::InputReferenceMismatch,
        WorkflowErrorCode::InvalidRequest | WorkflowErrorCode::InvalidPath
        | WorkflowErrorCode::PathContainsSymlink | WorkflowErrorCode::StageNotFound => {
            MediaErrorCode::InvalidRequest
        },
        WorkflowErrorCode::ScanLimitExceeded => MediaErrorCode::ResourceLimitExceeded,
        _ => MediaErrorCode::StorageUnavailable,
    }
}

/// The text of an optional string, as a slice.
fn opt_as_str(value: &Option<String>) -> (result: Option<&str>)
    ensures
        opt_str_view(result) == opt_view(*value),
{
    match value {
        Some(text) => Some(text.as_str()),
        None => None,
    }
}

/// Reports a frozen input that fails the current approval closure, keeping
/// the stage and run it concerns as context.
pub fn map_workflow_error(error: WorkflowServiceError, operation: MediaOperation) -> (mapped:
    MediaServiceError)
    ensures
        mapped.code == media_code_for_workflow(error.code),
        mapped.operation == operation,
        mapped.message@ == "冻结输入未通过当前批准闭包校验。"@,
        mapped.project_id is None,
        opt_view(mapped.stage_id) == opt_view(error.stage_id),
        opt_view(mapped.run_id) == opt_view(error.run_id),
        mapped.artifact_id is None,
{
    let code = match error.code {
        WorkflowErrorCode::ProjectIdentityMismatch => MediaErrorCode::CrossProjectReference,
        WorkflowErrorCode::StageNotReady | WorkflowErrorCode::ReviewConflict
        | WorkflowErrorCode::RunNotFound => MediaErrorCode::InputNotApproved,
        WorkflowErrorCode::ArtifactMismatch | WorkflowErrorCode::RunConflict
        | WorkflowErrorCode::ImmutableConflict => MediaErrorCode::InputReferenceMismatch,
        WorkflowErrorCode::InvalidRequest | WorkflowErrorCode::InvalidPath
        | WorkflowErrorCode::PathContainsSymlink | WorkflowErrorCode::StageNotFound => {
            MediaErrorCode::InvalidRequest
        },
        WorkflowErrorCode::ScanLimitExceeded => MediaErrorCode::ResourceLimitExceeded,
        WorkflowErrorCode::ProjectNotFound | WorkflowErrorCode::InvalidProject
        | WorkflowErrorCode::MigrationRequired | WorkflowErrorCode::UnsupportedNewerVersion
        | WorkflowErrorCode::WorkflowNotInitialized | WorkflowErrorCode::UnsupportedWorkflow
        | WorkflowErrorCode::InvalidStageGraph | WorkflowErrorCode::ConfigConflict
        | WorkflowErrorCode::IoError | WorkflowErrorCode::InternalContractError => {
            MediaErrorCode::StorageUnavailable
        },
    };
    MediaServiceError::new(code, operation, "冻结输入未通过当前批准闭包校验。").with_safe_context(
        None,
        opt_as_str(&error.stage_id),
        opt_as_str(&error.run_id),
        None,
    )
}


/// The characters of the UTF-8 bytes `start..end` of `text`.
pub open spec fn byte_slice(text: Seq<char>, start: int, end: int) -> Seq<char> {
    decode_utf8(encode_utf8(text).subrange(start, end))
}

/// A media identifier: `prefix`, `_`, and the fingerprint after its
/// `sha256:` prefix (its bytes from the seventh on).
pub fn stable_media_id(prefix: &str, fingerprint: &str) -> (id: String)
    requires
        is_char_boundary(fingerprint.spec_bytes(), 7),
    ensures
        id@ == prefix@ + "_"@ + byte_slice(
            fingerprint@,
            7,
            fingerprint.spec_bytes().len() as int,
        ),
{
    proof {
        broadcast use vstd::utf8::encode_utf8_decode_utf8;
    }
    let (_, digits) = fingerprint.split_at(7);
    let mut id = String::from_str(prefix);
    id.append("_");
    id.append(digits);
    id
}

/// A media artifact identifier: `artifact_` and the 32 characters of the
/// fingerprint after its `sha256:` prefix (its bytes 7 to 39).
pub fn stable_media_artifact_id(fingerprint: &str) -> (id: String)
    requires
        fingerprint.spec_bytes().len() >= 39,
        is_char_boundary(fingerprint.spec_bytes(), 7),
        is_char_boundary(
            fingerprint.spec_bytes().subrange(7, fingerprint.spec_bytes().len() as int),
            32,
        ),
    ensures
        id@ == "artifact_"@ + byte_slice(fingerprint@, 7, 39),
{
    proof {
        broadcast use vstd::utf8::encode_utf8_decode_utf8;
    }
    let (_, rest) = fingerprint.split_at(7);
    let (digits, _) = rest.split_at(32);
    proof {
        let fb = fingerprint.spec_bytes();
        assert(rest.spec_bytes() =~= fb.subrange(7, fb.len() as int));
        assert(digits.spec_bytes() =~= rest.spec_bytes().subrange(0, 32));
        assert(digits.spec_bytes() =~= fb.subrange(7, 39));
    }
    let mut id = String::from_str("artifact_");
    id.append(digits);
    id
}

/// The internal URI of a staged media source: `narracut:sha256/`, the hash
/// after its `sha256:` prefix, `/`, and the percent-encoded file name.
pub fn internal_source_uri(content_hash: &str, source_file_name: &str) -> (uri: String)
    requires
        is_char_boundary(content_hash.spec_bytes(), 7),
    ensures
        uri@ == "narracut:sha256/"@ + byte_slice(
            content_hash@,
            7,
            content_hash.spec_bytes().len() as int,
        ) + "/"@ + crate::uri::percent_encode_segment_spec(source_file_name.spec_bytes()),
{
    proof {
        broadcast use vstd::utf8::encode_utf8_decode_utf8;
    }
    let (_, digits) = content_hash.split_at(7);
    let encoded = crate::uri::percent_encode_uri_segment(source_file_name);
    let mut uri = String::from_str("narracut:sha256/");
    uri.append(digits);
    uri.append("/");
    uri.append(encoded.as_str());
    uri
}

} // verus!
