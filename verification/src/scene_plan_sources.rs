use vstd::prelude::*;

use crate::media_error::{plain_media_error, MediaErrorCode, MediaOperation, MediaServiceError};
use crate::media_rules::validate_frozen_audio_input;
use crate::media_types::{FrozenArtifactInputData, GenerateScenePlanOptions};
use crate::storage_error::opt_view;
use crate::storage_types::{ArtifactVerificationResultData, ArtifactVerificationStatusData};
use crate::text::same_text;
use crate::timeline::frozen_input_valid;
use crate::timeline_assembly::{copy_frozen_input, frozen_view, same_frozen_input};

verus! {

/// The longest audio a scene plan can be built on: one day, in milliseconds.
pub const MAX_SCENE_PLAN_AUDIO_MS: u64 = 86_400_000;

/// The audio input a captions document declares.
#[derive(Debug, Clone, PartialEq, Eq)]
pub enum CaptionsAudioInput {
    /// The document has no `audioInput`.
    Missing,
    /// The document's `audioInput`: the project it names, when that is a text,
    /// and the frozen reference, when it has the shape of one.
    Present { project_id: Option<String>, input: Option<FrozenArtifactInputData> },
}

/// What a scene plan reads of an approved captions document. A field that is
/// missing or not a text is `None`; `input_refs` holds the entries of
/// `inputRefs` that have the shape of a frozen reference.
#[derive(Debug, Clone, PartialEq, Eq)]
pub struct ScenePlanCaptionsFields {
    pub document_type: Option<String>,
    pub project_id: Option<String>,
    pub run_id: Option<String>,
    pub input_refs: Vec<FrozenArtifactInputData>,
    pub audio_input: CaptionsAudioInput,
}

/// What the stored metadata of the captions' audio artifact holds. A field
/// that is missing or not a text is `None`.
#[derive(Debug, Clone, PartialEq, Eq)]
pub struct AudioArtifactFields {
    pub owner_project_id: String,
    pub stage_id: Option<String>,
    pub run_id: Option<String>,
    pub kind: Option<String>,
    pub content_hash: Option<String>,
}

/// What a scene plan reads of the approved audio document. `duration_ms` is
/// `None` when the field is missing or not a non-negative integer.
#[derive(Debug, Clone, PartialEq, Eq)]
pub struct ScenePlanAudioFields {
    pub document_type: Option<String>,
    pub project_id: Option<String>,
    pub run_id: Option<String>,
    pub input_refs: Vec<FrozenArtifactInputData>,
    pub duration_ms: Option<u64>,
}

/// Everything the storage reported about the sources of a scene plan: the
/// content checks of the three frozen inputs, the captions document, and the
/// metadata, content check and document of the audio the captions name.
#[derive(Debug, Clone, PartialEq, Eq)]
pub struct ScenePlanSources {
    pub research_verification: ArtifactVerificationResultData,
    pub script_verification: ArtifactVerificationResultData,
    pub captions_verification: ArtifactVerificationResultData,
    pub captions: ScenePlanCaptionsFields,
    pub audio_artifact: AudioArtifactFields,
    pub audio_verification: ArtifactVerificationResultData,
    pub audio_document: ScenePlanAudioFields,
}

/// The audio a scene plan is built on, as its sources establish it.
#[derive(Debug, Clone, PartialEq, Eq)]
pub struct ScenePlanSourceContext {
    pub audio_input: FrozenArtifactInputData,
    pub audio_duration_ms: u64,
}

/// Why the sources are refused: the error's code and message, and for a
/// failed content check the stage, run and artifact it names.
pub struct SourceRefusal {
    pub code: MediaErrorCode,
    pub message: Seq<char>,
    pub context: Option<(Seq<char>, Seq<char>, Seq<char>)>,
}

/// `error` reports `refusal` for a scene plan of the project `project_id`: a
/// failed content check names the project, stage, run and artifact; any other
/// refusal names nothing.
pub open spec fn refused_as(error: MediaServiceError, refusal: SourceRefusal, project_id: Seq<char>) -> bool {
    match refusal.context {
        None => plain_media_error(error, refusal.code, MediaOperation::GenerateScenePlan, refusal.message),
        Some((stage, run, artifact)) => {
            &&& error.code == refusal.code
            &&& error.operation == MediaOperation::GenerateScenePlan
            &&& error.message@ == refusal.message
            &&& opt_view(error.project_id) == Some(project_id)
            &&& opt_view(error.stage_id) == Some(stage)
            &&& opt_view(error.run_id) == Some(run)
            &&& opt_view(error.artifact_id) == Some(artifact)
        },
    }
}

/// The content check found the artifact of the project intact, with the
/// content hash the frozen input names.
pub open spec fn verified_for(
    verification: ArtifactVerificationResultData,
    project_id: Seq<char>,
    content_hash: Seq<char>,
) -> bool {
    &&& verification.owner_project_id@ == project_id
    &&& verification.status == ArtifactVerificationStatusData::Verified
    &&& verification.expected_content_hash@ == content_hash
}

/// The references record `input`: one of them holds the same texts.
pub open spec fn records_frozen(refs: Seq<FrozenArtifactInputData>, input: FrozenArtifactInputData) -> bool {
    exists|j: int| 0 <= j < refs.len() && frozen_view(#[trigger] refs[j]) == frozen_view(input)
}

/// The refusal of a failed content check of a frozen input.
pub open spec fn unverified_input(input: FrozenArtifactInputData, message: Seq<char>) -> SourceRefusal {
    SourceRefusal {
        code: MediaErrorCode::ArtifactVerificationFailed,
        message,
        context: Some((input.stage_id@, input.run_id@, input.artifact_id@)),
    }
}

/// A refusal that names nothing.
pub open spec fn plain_refusal(code: MediaErrorCode, message: Seq<char>) -> SourceRefusal {
    SourceRefusal { code, message, context: None }
}

/// The captions are the captions document of the request's project and of the
/// captions input's run, and record the script input.
pub open spec fn captions_declared(options: GenerateScenePlanOptions, captions: ScenePlanCaptionsFields) -> bool {
    &&& opt_view(captions.document_type) == Some("captions_media"@)
    &&& opt_view(captions.project_id) == Some(options.expected_project_id@)
    &&& opt_view(captions.run_id) == Some(options.captions_input.run_id@)
    &&& records_frozen(captions.input_refs@, options.script_input)
}

/// The audio artifact's metadata is that of a voice audio of the project, made
/// by the audio input's run, with the audio input's content hash.
pub open spec fn audio_artifact_matches(
    options: GenerateScenePlanOptions,
    audio: FrozenArtifactInputData,
    artifact: AudioArtifactFields,
) -> bool {
    &&& artifact.owner_project_id@ == options.expected_project_id@
    &&& opt_view(artifact.stage_id) == Some("audio"@)
    &&& opt_view(artifact.run_id) == Some(audio.run_id@)
    &&& opt_view(artifact.kind) == Some("voice_audio"@)
    &&& opt_view(artifact.content_hash) == Some(audio.content_hash@)
}

/// The audio document's duration is positive and at most a day.
pub open spec fn duration_valid(duration_ms: Option<u64>) -> bool {
    match duration_ms {
        Some(d) => 0 < d <= MAX_SCENE_PLAN_AUDIO_MS,
        None => false,
    }
}

/// The audio document is that of the project and of the audio input's run,
/// and records the script input.
pub open spec fn audio_declared(
    options: GenerateScenePlanOptions,
    audio: FrozenArtifactInputData,
    document: ScenePlanAudioFields,
) -> bool {
    &&& opt_view(document.document_type) == Some("audio_media"@)
    &&& opt_view(document.project_id) == Some(options.expected_project_id@)
    &&& opt_view(document.run_id) == Some(audio.run_id@)
    &&& records_frozen(document.input_refs@, options.script_input)
}

/// Why the audio the captions name cannot be used, checked in this order: its
/// metadata, its content, its duration, its document.
pub open spec fn audio_refusal(
    options: GenerateScenePlanOptions,
    audio: FrozenArtifactInputData,
    artifact: AudioArtifactFields,
    verification: ArtifactVerificationResultData,
    document: ScenePlanAudioFields,
) -> Option<SourceRefusal> {
    if !audio_artifact_matches(options, audio, artifact) {
        Some(
            plain_refusal(
                MediaErrorCode::InputReferenceMismatch,
                "Captions Audio Artifact 元数据闭包不一致。"@,
            ),
        )
    } else if !(verification.status == ArtifactVerificationStatusData::Verified
        && verification.expected_content_hash@ == audio.content_hash@) {
        Some(unverified_input(audio, "Captions Audio Artifact 实体未通过内容校验。"@))
    } else if !duration_valid(document.duration_ms) {
        Some(plain_refusal(MediaErrorCode::InputReferenceMismatch, "AudioMediaDocument 时长无效。"@))
    } else if !audio_declared(options, audio, document) {
        Some(
            plain_refusal(
                MediaErrorCode::InputReferenceMismatch,
                "AudioMediaDocument 的项目、运行或 Script 闭包不一致。"@,
            ),
        )
    } else {
        None
    }
}

/// Why the sources of a scene plan are refused, checked in the order the
/// storage reports them: the three frozen inputs' content, the captions
/// document, the audio input it declares, then the audio itself.
pub open spec fn scene_plan_sources_refusal(options: GenerateScenePlanOptions, sources: ScenePlanSources) -> Option<
    SourceRefusal,
> {
    let project = options.expected_project_id@;
    let unverified = "Scene Plan 冻结输入实体未通过内容校验。"@;
    if !verified_for(sources.research_verification, project, options.research_input.content_hash@) {
        Some(unverified_input(options.research_input, unverified))
    } else if !verified_for(sources.script_verification, project, options.script_input.content_hash@) {
        Some(unverified_input(options.script_input, unverified))
    } else if !verified_for(sources.captions_verification, project, options.captions_input.content_hash@) {
        Some(unverified_input(options.captions_input, unverified))
    } else {
        match captions_refusal(options, sources.captions) {
            Some(refusal) => Some(refusal),
            None => audio_refusal(
                options,
                declared_audio(sources.captions),
                sources.audio_artifact,
                sources.audio_verification,
                sources.audio_document,
            ),
        }
    }
}

/// The audio input the captions declare (meaningful when they declare one).
pub open spec fn declared_audio(captions: ScenePlanCaptionsFields) -> FrozenArtifactInputData {
    match captions.audio_input {
        CaptionsAudioInput::Present { input: Some(audio), .. } => audio,
        _ => arbitrary(),
    }
}

/// The refusal of the captions document and of the audio input it declares,
/// once the three frozen inputs passed their content checks.
pub open spec fn captions_refusal(options: GenerateScenePlanOptions, captions: ScenePlanCaptionsFields) -> Option<
    SourceRefusal,
> {
    if !captions_declared(options, captions) {
        Some(
            plain_refusal(
                MediaErrorCode::InputReferenceMismatch,
                "CaptionsMediaDocument 的项目、运行或 Script 闭包与冻结输入不一致。"@,
            ),
        )
    } else {
        match captions.audio_input {
            CaptionsAudioInput::Missing => Some(
                plain_refusal(
                    MediaErrorCode::InputReferenceMismatch,
                    "CaptionsMediaDocument 缺少 Audio 冻结输入。"@,
                ),
            ),
            CaptionsAudioInput::Present { project_id, input } => if opt_view(project_id) != Some(
                options.expected_project_id@,
            ) {
                Some(
                    plain_refusal(
                        MediaErrorCode::CrossProjectReference,
                        "Captions Audio 输入属于其他项目。"@,
                    ),
                )
            } else {
                match input {
                    None => Some(
                        plain_refusal(
                            MediaErrorCode::InputReferenceMismatch,
                            "媒体文档中的冻结输入格式无效。"@,
                        ),
                    ),
                    Some(audio) => if !frozen_input_valid(audio, "audio"@) {
                        Some(plain_refusal(MediaErrorCode::InvalidRequest, "Audio 冻结输入引用格式无效。"@))
                    } else if !records_frozen(captions.input_refs@, audio) {
                        Some(
                            plain_refusal(
                                MediaErrorCode::InputReferenceMismatch,
                                "Captions audioInput 与 inputRefs 不一致。"@,
                            ),
                        )
                    } else {
                        None
                    },
                }
            },
        }
    }
}

/// Reads the audio input an approved captions document declares: the captions
/// must be those of the request's project and captions run and record the
/// script input, and the audio input must be a valid frozen audio reference
/// of the same project that the captions also record.
pub fn captions_audio_input(options: &GenerateScenePlanOptions, captions: &ScenePlanCaptionsFields) -> (result:
    Result<FrozenArtifactInputData, MediaServiceError>)
    ensures
        match captions_refusal(*options, *captions) {
            Some(refusal) => result matches Err(error) && refused_as(error, refusal, options.expected_project_id@),
            None => result matches Ok(audio) && frozen_view(audio) == frozen_view(declared_audio(*captions)),
        },
{
    let operation = MediaOperation::GenerateScenePlan;
    if !text_is(&captions.document_type, "captions_media") || !text_is(
        &captions.project_id,
        options.expected_project_id.as_str(),
    ) || !text_is(&captions.run_id, options.captions_input.run_id.as_str()) || !has_frozen_input(
        captions.input_refs.as_slice(),
        &options.script_input,
    ) {
        return Err(
            MediaServiceError::new(
                MediaErrorCode::InputReferenceMismatch,
                operation,
                "CaptionsMediaDocument 的项目、运行或 Script 闭包与冻结输入不一致。",
            ),
        );
    }
    match &captions.audio_input {
        CaptionsAudioInput::Missing => Err(
            MediaServiceError::new(
                MediaErrorCode::InputReferenceMismatch,
                operation,
                "CaptionsMediaDocument 缺少 Audio 冻结输入。",
            ),
        ),
        CaptionsAudioInput::Present { project_id, input } => {
            if !text_is(project_id, options.expected_project_id.as_str()) {
                return Err(
                    MediaServiceError::new(
                        MediaErrorCode::CrossProjectReference,
                        operation,
                        "Captions Audio 输入属于其他项目。",
                    ),
                );
            }
            match input {
                None => Err(
                    MediaServiceError::new(
                        MediaErrorCode::InputReferenceMismatch,
                        operation,
                        "媒体文档中的冻结输入格式无效。",
                    ),
                ),
                Some(audio) => {
                    validate_frozen_audio_input(audio, operation)?;
                    if !has_frozen_input(captions.input_refs.as_slice(), audio) {
                        return Err(
                            MediaServiceError::new(
                                MediaErrorCode::InputReferenceMismatch,
                                operation,
                                "Captions audioInput 与 inputRefs 不一致。",
                            ),
                        );
                    }
                    Ok(copy_frozen_input(audio))
                },
            }
        },
    }
}

/// Sources that are accepted close over their audio: the three frozen inputs
/// passed their content checks for the project, the captions record the script
/// input and a valid audio reference of the project, and that audio's
/// metadata, content and document agree with it and give a duration of at
/// most a day.
pub proof fn lemma_accepted_sources_close_over_audio(options: GenerateScenePlanOptions, sources: ScenePlanSources)
    requires
        scene_plan_sources_refusal(options, sources) is None,
    ensures
        verified_for(sources.research_verification, options.expected_project_id@, options.research_input.content_hash@),
        verified_for(sources.script_verification, options.expected_project_id@, options.script_input.content_hash@),
        verified_for(sources.captions_verification, options.expected_project_id@, options.captions_input.content_hash@),
        captions_declared(options, sources.captions),
        frozen_input_valid(declared_audio(sources.captions), "audio"@),
        records_frozen(sources.captions.input_refs@, declared_audio(sources.captions)),
        audio_artifact_matches(options, declared_audio(sources.captions), sources.audio_artifact),
        audio_declared(options, declared_audio(sources.captions), sources.audio_document),
        duration_valid(sources.audio_document.duration_ms),
{
}

/// Whether the references record `input`.
pub fn has_frozen_input(refs: &[FrozenArtifactInputData], input: &FrozenArtifactInputData) -> (result: bool)
    ensures
        result == records_frozen(refs@, *input),
{
    let mut j: usize = 0;
    while j < refs.len()
        invariant
            0 <= j <= refs@.len(),
            forall|q: int| 0 <= q < j ==> frozen_view(#[trigger] refs@[q]) != frozen_view(*input),
        decreases refs@.len() - j,
    {
        if same_frozen_input(&refs[j], input) {
            return true;
        }
        j = j + 1;
    }
    false
}

/// Whether an optional text is `expected`.
fn text_is(value: &Option<String>, expected: &str) -> (result: bool)
    ensures
        result == (opt_view(*value) == Some(expected@)),
{
    match value {
        Some(text) => same_text(text.as_str(), expected),
        None => false,
    }
}

/// Checks the content check of a frozen input of the scene plan: the artifact
/// belongs to the project, is intact, and has the input's content hash.
pub fn check_input_verified(
    project_id: &str,
    input: &FrozenArtifactInputData,
    verification: &ArtifactVerificationResultData,
) -> (result: Result<(), MediaServiceError>)
    ensures
        result is Ok <==> verified_for(*verification, project_id@, input.content_hash@),
        result matches Err(error) ==> refused_as(
            error,
            unverified_input(*input, "Scene Plan 冻结输入实体未通过内容校验。"@),
            project_id@,
        ),
{
    if !same_text(verification.owner_project_id.as_str(), project_id) || verification.status
        != ArtifactVerificationStatusData::Verified || !same_text(
        verification.expected_content_hash.as_str(),
        input.content_hash.as_str(),
    ) {
        return Err(
            MediaServiceError::new(
                MediaErrorCode::ArtifactVerificationFailed,
                MediaOperation::GenerateScenePlan,
                "Scene Plan 冻结输入实体未通过内容校验。",
            ).with_safe_context(
                Some(project_id),
                Some(input.stage_id.as_str()),
                Some(input.run_id.as_str()),
                Some(input.artifact_id.as_str()),
            ),
        );
    }
    Ok(())
}

/// Checks the audio the captions name: its metadata, its content check and
/// its document, in that order (see [`audio_refusal`]); gives its duration.
pub fn check_audio_source(
    options: &GenerateScenePlanOptions,
    audio: &FrozenArtifactInputData,
    artifact: &AudioArtifactFields,
    verification: &ArtifactVerificationResultData,
    document: &ScenePlanAudioFields,
) -> (result: Result<u64, MediaServiceError>)
    ensures
        match audio_refusal(*options, *audio, *artifact, *verification, *document) {
            Some(refusal) => result matches Err(error) && refused_as(error, refusal, options.expected_project_id@),
            None => result == Ok::<u64, MediaServiceError>(document.duration_ms.unwrap()),
        },
{
    let operation = MediaOperation::GenerateScenePlan;
    if !same_text(artifact.owner_project_id.as_str(), options.expected_project_id.as_str())
        || !text_is(&artifact.stage_id, "audio") || !text_is(&artifact.run_id, audio.run_id.as_str())
        || !text_is(&artifact.kind, "voice_audio") || !text_is(
        &artifact.content_hash,
        audio.content_hash.as_str(),
    ) {
        return Err(
            MediaServiceError::new(
                MediaErrorCode::InputReferenceMismatch,
                operation,
                "Captions Audio Artifact 元数据闭包不一致。",
            ),
        );
    }
    if verification.status != ArtifactVerificationStatusData::Verified || !same_text(
        verification.expected_content_hash.as_str(),
        audio.content_hash.as_str(),
    ) {
        return Err(
            MediaServiceError::new(
                MediaErrorCode::ArtifactVerificationFailed,
                operation,
                "Captions Audio Artifact 实体未通过内容校验。",
            ).with_safe_context(
                Some(options.expected_project_id.as_str()),
                Some(audio.stage_id.as_str()),
                Some(audio.run_id.as_str()),
                Some(audio.artifact_id.as_str()),
            ),
        );
    }
    let duration = match document.duration_ms {
        Some(d) => d,
        None => 0,
    };
    if duration == 0 || duration > MAX_SCENE_PLAN_AUDIO_MS {
        return Err(
            MediaServiceError::new(
                MediaErrorCode::InputReferenceMismatch,
                operation,
                "AudioMediaDocument 时长无效。",
            ),
        );
    }
    if !text_is(&document.document_type, "audio_media") || !text_is(
        &document.project_id,
        options.expected_project_id.as_str(),
    ) || !text_is(&document.run_id, audio.run_id.as_str()) || !has_frozen_input(
        document.input_refs.as_slice(),
        &options.script_input,
    ) {
        return Err(
            MediaServiceError::new(
                MediaErrorCode::InputReferenceMismatch,
                operation,
                "AudioMediaDocument 的项目、运行或 Script 闭包不一致。",
            ),
        );
    }
    Ok(duration)
}

/// Checks the sources of a scene plan as the storage reported them (see
/// [`scene_plan_sources_refusal`]) and gives the audio the scene plan is built
/// on: the audio input the captions declare and the audio's duration.
pub fn scene_plan_source_context(options: &GenerateScenePlanOptions, sources: &ScenePlanSources) -> (result:
    Result<ScenePlanSourceContext, MediaServiceError>)
    ensures
        match scene_plan_sources_refusal(*options, *sources) {
            Some(refusal) => result matches Err(error) && refused_as(error, refusal, options.expected_project_id@),
            None => result matches Ok(context) && frozen_view(context.audio_input) == frozen_view(
                declared_audio(sources.captions),
            ) && context.audio_duration_ms == sources.audio_document.duration_ms.unwrap(),
        },
{
    let project_id = options.expected_project_id.as_str();
    check_input_verified(project_id, &options.research_input, &sources.research_verification)?;
    check_input_verified(project_id, &options.script_input, &sources.script_verification)?;
    check_input_verified(project_id, &options.captions_input, &sources.captions_verification)?;
    let audio_input = captions_audio_input(options, &sources.captions)?;
    let audio_duration_ms = check_audio_source(
        options,
        &audio_input,
        &sources.audio_artifact,
        &sources.audio_verification,
        &sources.audio_document,
    )?;
    Ok(ScenePlanSourceContext { audio_input, audio_duration_ms })
}

} // verus!
