use vstd::prelude::*;

use crate::digest::{sha256_digest, sha256_spec};
use crate::hex::{hex_lower, lemma_hex_lower_digits, lowercase_hex};
use crate::identifiers::{
    is_lower_hex, portable_id, portable_id_spec, run_id_is_valid, run_id_spec, same_texts, texts,
};
use crate::ordered_set::{insert_sorted, strictly_ascending};
use crate::media_types::{FrozenArtifactInputData, TimelineCanvasData, TimelineSafeAreaData};
use crate::storage_error::opt_view;
use crate::text::{bounded_text, bounded_text_spec, chars_of, copy_texts, same_text};
use crate::timeline_request::{timeline_request, timeline_request_text};
use vstd::utf8::encode_utf8;
use crate::timeline::{
    canvas_valid, frozen_input_valid, input_of_stage, safe_area_valid, scene_track_refusal,
    stage_input, stage_input_refusal, validate_canvas, validate_frozen_input, validate_safe_area,
    TimelineDomainError, TimelineDomainErrorCode, TimelineScene, MAX_AUDIO_DURATION_MS,
};
use crate::timeline_build::{
    caption_cues_refusal, closure_ids, closures_trace, cue_refusal, inputs_trace,
    scene_plan_captions_refusal, validate_scene_plan_against_captions, validated_caption_cues,
    CaptionCueClosure, CaptionCueInput, ScenePlanSceneInput,
};
use crate::timeline_document::{
    change_summary_valid, cue_ids_refusal, first_input_ref_refusal, has_scene, input_ref_refusal,
    input_refs_refusal, json_object_text, ref_inputs, timeline_refusal, timeline_stage,
    validate_timeline_semantics, TimelineAudioTrack, TimelineCaptionTrack, TimelineChangeSummary,
    TimelineDocument, TimelineInputRef,
};

verus! {

/// What a frozen input holds, as texts.
pub struct FrozenView {
    pub stage_id: Seq<char>,
    pub run_id: Seq<char>,
    pub artifact_id: Seq<char>,
    pub content_hash: Seq<char>,
    pub review_record_id: Seq<char>,
    pub claims: Seq<Seq<char>>,
    pub evidence: Seq<Seq<char>>,
}

/// The texts of a frozen input.
pub open spec fn frozen_view(input: FrozenArtifactInputData) -> FrozenView {
    FrozenView {
        stage_id: input.stage_id@,
        run_id: input.run_id@,
        artifact_id: input.artifact_id@,
        content_hash: input.content_hash@,
        review_record_id: input.review_record_id@,
        claims: texts(input.claim_ids@),
        evidence: texts(input.evidence_refs@),
    }
}

/// The texts of a recorded input reference: its project and its input.
pub open spec fn input_ref_view(reference: TimelineInputRef) -> (Seq<char>, FrozenView) {
    (reference.project_id@, frozen_view(reference.input))
}

/// Whether two frozen inputs hold the same texts.
pub fn same_frozen_input(a: &FrozenArtifactInputData, b: &FrozenArtifactInputData) -> (result: bool)
    ensures
        result == (frozen_view(*a) == frozen_view(*b)),
{
    same_text(a.stage_id.as_str(), b.stage_id.as_str()) && same_text(
        a.run_id.as_str(),
        b.run_id.as_str(),
    ) && same_text(a.artifact_id.as_str(), b.artifact_id.as_str()) && same_text(
        a.content_hash.as_str(),
        b.content_hash.as_str(),
    ) && same_text(a.review_record_id.as_str(), b.review_record_id.as_str()) && same_texts(
        a.claim_ids.as_slice(),
        b.claim_ids.as_slice(),
    ) && same_texts(a.evidence_refs.as_slice(), b.evidence_refs.as_slice())
}

/// Whether two input references hold the same texts.
pub fn same_input_ref(a: &TimelineInputRef, b: &TimelineInputRef) -> (result: bool)
    ensures
        result == (input_ref_view(*a) == input_ref_view(*b)),
{
    same_text(a.project_id.as_str(), b.project_id.as_str()) && same_frozen_input(&a.input, &b.input)
}

/// A copy of a frozen input.
pub fn copy_frozen_input(input: &FrozenArtifactInputData) -> (copy: FrozenArtifactInputData)
    ensures
        frozen_view(copy) == frozen_view(*input),
{
    FrozenArtifactInputData {
        stage_id: input.stage_id.clone(),
        run_id: input.run_id.clone(),
        artifact_id: input.artifact_id.clone(),
        content_hash: input.content_hash.clone(),
        review_record_id: input.review_record_id.clone(),
        claim_ids: copy_texts(&input.claim_ids),
        evidence_refs: copy_texts(&input.evidence_refs),
    }
}

/// The reference that a document of the project records for a frozen input.
pub fn frozen_input_document(project_id: &str, input: &FrozenArtifactInputData) -> (reference:
    TimelineInputRef)
    ensures
        input_ref_view(reference) == (project_id@, frozen_view(*input)),
{
    TimelineInputRef { project_id: project_id.to_owned(), input: copy_frozen_input(input) }
}

/// The references record `expected`.
pub open spec fn records_input(refs: Seq<TimelineInputRef>, expected: (Seq<char>, FrozenView)) -> bool {
    exists|j: int| 0 <= j < refs.len() && input_ref_view(#[trigger] refs[j]) == expected
}

/// Whether the references record `expected`.
pub fn document_has_frozen_input(refs: &[TimelineInputRef], expected: &TimelineInputRef) -> (result:
    bool)
    ensures
        result == records_input(refs@, input_ref_view(*expected)),
{
    let mut j: usize = 0;
    while j < refs.len()
        invariant
            0 <= j <= refs@.len(),
            forall|q: int| 0 <= q < j ==> input_ref_view(#[trigger] refs@[q]) != input_ref_view(*expected),
        decreases refs@.len() - j,
    {
        if same_input_ref(&refs[j], expected) {
            return true;
        }
        j = j + 1;
    }
    false
}

/// The identity a source document declares; a field that is missing or not
/// a text is `None`. `input_refs` holds the recorded inputs that are
/// well-formed frozen references (an entry of another shape cannot match one).
#[derive(Debug, Clone, PartialEq, Eq)]
pub struct SourceDocumentIdentity {
    pub document_type: Option<String>,
    pub project_id: Option<String>,
    pub run_id: Option<String>,
    pub input_refs: Vec<TimelineInputRef>,
    /// The whole document as canonical JSON (keys sorted, no whitespace),
    /// whose digest the timeline's identity records.
    pub canonical_json: Vec<u8>,
}

/// The source declares the document type, the project and the run.
pub open spec fn identity_matches(
    identity: SourceDocumentIdentity,
    document_type: Seq<char>,
    project_id: Seq<char>,
    run_id: Seq<char>,
) -> bool {
    &&& opt_view(identity.document_type) == Some(document_type)
    &&& opt_view(identity.project_id) == Some(project_id)
    &&& opt_view(identity.run_id) == Some(run_id)
}

/// Whether the source declares the document type, the project and the run.
fn identity_is(identity: &SourceDocumentIdentity, document_type: &str, project_id: &str, run_id: &str) -> (result: bool)
    ensures
        result == identity_matches(*identity, document_type@, project_id@, run_id@),
{
    let type_ok = match &identity.document_type {
        Some(value) => same_text(value.as_str(), document_type),
        None => false,
    };
    let project_ok = match &identity.project_id {
        Some(value) => same_text(value.as_str(), project_id),
        None => false,
    };
    let run_ok = match &identity.run_id {
        Some(value) => same_text(value.as_str(), run_id),
        None => false,
    };
    type_ok && project_ok && run_ok
}


/// The audio document a timeline is built on.
#[derive(Debug, Clone, PartialEq, Eq)]
pub struct AudioSourceDocument {
    pub identity: SourceDocumentIdentity,
    /// The audio's duration, when it is a non-negative integer.
    pub duration_ms: Option<u64>,
}

/// The captions document a timeline is built on.
#[derive(Debug, Clone, PartialEq, Eq)]
pub struct CaptionsSourceDocument {
    pub identity: SourceDocumentIdentity,
    /// The audio input the captions declare they were made from, when it is a
    /// well-formed frozen reference.
    pub audio_input: Option<TimelineInputRef>,
    pub cues: Vec<CaptionCueInput>,
}

/// The scene plan a timeline is built on.
#[derive(Debug, Clone, PartialEq, Eq)]
pub struct ScenePlanSourceDocument {
    pub identity: SourceDocumentIdentity,
    pub scenes: Vec<ScenePlanSceneInput>,
    /// Why the scene plan's own semantic check refused it, if it did.
    pub semantic_refusal: Option<String>,
}

/// A request to build a timeline from approved audio, captions and scene
/// plan documents.
#[derive(Debug, Clone, PartialEq, Eq)]
pub struct BuildTimelineOptions {
    pub audio_document: AudioSourceDocument,
    pub captions_document: CaptionsSourceDocument,
    pub scene_plan_document: ScenePlanSourceDocument,
    pub audio_input: FrozenArtifactInputData,
    pub captions_input: FrozenArtifactInputData,
    pub scene_plan_input: FrozenArtifactInputData,
    pub canvas: TimelineCanvasData,
    pub safe_area: TimelineSafeAreaData,
    /// The configuration snapshot as canonical JSON text (keys sorted, no
    /// whitespace).
    pub config_snapshot: String,
    pub project_id: String,
    pub run_id: String,
    pub stable_seed: String,
    pub created_at: String,
    /// The media schema version the document declares.
    pub schema_version: String,
}

/// The canonical JSON bytes of the request a timeline is identified by: its
/// project, run and stable seed, the hashes of its three source documents, its
/// frozen inputs, canvas, safe area and configuration snapshot (see
/// [`timeline_request_text`]). The clock time is not part of it.
#[verifier::opaque]
pub open spec fn timeline_stable_request(options: BuildTimelineOptions) -> Seq<u8> {
    encode_utf8(
        timeline_request_text(
            options.project_id@,
            options.run_id@,
            options.stable_seed@,
            options.audio_document.identity.canonical_json@,
            options.captions_document.identity.canonical_json@,
            options.scene_plan_document.identity.canonical_json@,
            options.audio_input,
            options.captions_input,
            options.scene_plan_input,
            options.canvas,
            options.safe_area,
            options.config_snapshot@,
        ),
    )
}

/// The three frozen inputs name different artifacts.
pub open spec fn distinct_input_artifacts(options: BuildTimelineOptions) -> bool {
    &&& options.audio_input.artifact_id@ != options.captions_input.artifact_id@
    &&& options.audio_input.artifact_id@ != options.scene_plan_input.artifact_id@
    &&& options.captions_input.artifact_id@ != options.scene_plan_input.artifact_id@
}

/// Why a build request is refused before its documents are read, if it is.
pub open spec fn build_options_refusal(options: BuildTimelineOptions) -> Option<Seq<char>> {
    if !portable_id_spec(options.project_id@, 160) || !run_id_spec(options.run_id@)
        || !bounded_text_spec(options.stable_seed@, 1, 512) || !bounded_text_spec(
        options.created_at@,
        20,
        40,
    ) || !json_object_text(options.config_snapshot@) {
        Some("Timeline 构建身份、稳定种子、时间戳或配置无效。"@)
    } else if !canvas_valid(options.canvas) {
        Some("Timeline canvas 尺寸或 frameRate rational 无效。"@)
    } else if !safe_area_valid(options.safe_area, options.canvas) {
        Some("Timeline safeArea 必须无溢出地位于 canvas 范围内。"@)
    } else if !frozen_input_valid(options.audio_input, "audio"@) {
        Some("Timeline "@ + "audio"@ + " 冻结输入无效。"@)
    } else if !frozen_input_valid(options.captions_input, "captions"@) {
        Some("Timeline "@ + "captions"@ + " 冻结输入无效。"@)
    } else if !frozen_input_valid(options.scene_plan_input, "scene_plan"@) {
        Some("Timeline "@ + "scene_plan"@ + " 冻结输入无效。"@)
    } else if !distinct_input_artifacts(options) {
        Some("Timeline 三个冻结输入必须引用不同 Artifact。"@)
    } else {
        None
    }
}

/// Checks a build request's identities, seed, timestamp, configuration,
/// canvas, safe area and frozen inputs.
pub fn validate_build_options(options: &BuildTimelineOptions) -> (result: Result<(), TimelineDomainError>)
    ensures
        result is Ok <==> build_options_refusal(*options) is None,
        result matches Err(error) ==> error.code == TimelineDomainErrorCode::InvalidRequest && Some(
            error.message@,
        ) == build_options_refusal(*options),
{
    let config = chars_of(options.config_snapshot.as_str());
    let config_is_object = config.len() > 0 && config[0] == '{';
    if !portable_id(options.project_id.as_str()) || !run_id_is_valid(options.run_id.as_str())
        || !bounded_text(options.stable_seed.as_str(), 1, 512) || !bounded_text(
        options.created_at.as_str(),
        20,
        40,
    ) || !config_is_object {
        return Err(
            TimelineDomainError::new(
                TimelineDomainErrorCode::InvalidRequest,
                "Timeline 构建身份、稳定种子、时间戳或配置无效。",
            ),
        );
    }
    validate_canvas(options.canvas)?;
    validate_safe_area(options.safe_area, options.canvas)?;
    validate_frozen_input(&options.audio_input, "audio")?;
    validate_frozen_input(&options.captions_input, "captions")?;
    validate_frozen_input(&options.scene_plan_input, "scene_plan")?;
    let a = options.audio_input.artifact_id.as_str();
    let c = options.captions_input.artifact_id.as_str();
    let p = options.scene_plan_input.artifact_id.as_str();
    if same_text(a, c) || same_text(a, p) || same_text(c, p) {
        return Err(
            TimelineDomainError::new(
                TimelineDomainErrorCode::InvalidRequest,
                "Timeline 三个冻结输入必须引用不同 Artifact。",
            ),
        );
    }
    Ok(())
}

/// Why the source documents do not belong to the frozen inputs, if they do
/// not: each must be of its type, of the project and of its input's run, the
/// captions must declare and record the audio input, and the scene plan must
/// record the captions input.
pub open spec fn source_identity_refusal(options: BuildTimelineOptions) -> Option<Seq<char>> {
    let audio_ref = (options.project_id@, frozen_view(options.audio_input));
    let captions_ref = (options.project_id@, frozen_view(options.captions_input));
    if !identity_matches(
        options.audio_document.identity,
        "audio_media"@,
        options.project_id@,
        options.audio_input.run_id@,
    ) || !identity_matches(
        options.captions_document.identity,
        "captions_media"@,
        options.project_id@,
        options.captions_input.run_id@,
    ) || !identity_matches(
        options.scene_plan_document.identity,
        "scene_plan"@,
        options.project_id@,
        options.scene_plan_input.run_id@,
    ) {
        Some("Timeline 输入文档的类型、项目或运行身份与冻结引用不一致。"@)
    } else if !(options.captions_document.audio_input matches Some(declared) && input_ref_view(declared)
        == audio_ref) || !records_input(options.captions_document.identity.input_refs@, audio_ref) {
        Some("CaptionsMediaDocument 未闭包引用批准 Audio 输入。"@)
    } else if !records_input(options.scene_plan_document.identity.input_refs@, captions_ref) {
        Some("ScenePlanDocument 未闭包引用批准 Captions 输入。"@)
    } else {
        None
    }
}

/// Checks that the source documents belong to the frozen inputs.
pub fn validate_source_identities(options: &BuildTimelineOptions) -> (result: Result<
    (),
    TimelineDomainError,
>)
    ensures
        result is Ok <==> source_identity_refusal(*options) is None,
        result matches Err(error) ==> error.code == TimelineDomainErrorCode::InvalidInput && Some(
            error.message@,
        ) == source_identity_refusal(*options),
{
    let project_id = options.project_id.as_str();
    if !identity_is(
        &options.audio_document.identity,
        "audio_media",
        project_id,
        options.audio_input.run_id.as_str(),
    ) || !identity_is(
        &options.captions_document.identity,
        "captions_media",
        project_id,
        options.captions_input.run_id.as_str(),
    ) || !identity_is(
        &options.scene_plan_document.identity,
        "scene_plan",
        project_id,
        options.scene_plan_input.run_id.as_str(),
    ) {
        return Err(
            TimelineDomainError::new(
                TimelineDomainErrorCode::InvalidInput,
                "Timeline 输入文档的类型、项目或运行身份与冻结引用不一致。",
            ),
        );
    }
    let audio_ref = frozen_input_document(project_id, &options.audio_input);
    let declared = match &options.captions_document.audio_input {
        Some(declared) => same_input_ref(declared, &audio_ref),
        None => false,
    };
    if !declared || !document_has_frozen_input(
        options.captions_document.identity.input_refs.as_slice(),
        &audio_ref,
    ) {
        return Err(
            TimelineDomainError::new(
                TimelineDomainErrorCode::InvalidInput,
                "CaptionsMediaDocument 未闭包引用批准 Audio 输入。",
            ),
        );
    }
    let captions_ref = frozen_input_document(project_id, &options.captions_input);
    if !document_has_frozen_input(
        options.scene_plan_document.identity.input_refs.as_slice(),
        &captions_ref,
    ) {
        return Err(
            TimelineDomainError::new(
                TimelineDomainErrorCode::InvalidInput,
                "ScenePlanDocument 未闭包引用批准 Captions 输入。",
            ),
        );
    }
    Ok(())
}

/// Why the audio's duration is refused, if it is: it must be between one
/// millisecond and one day.
pub open spec fn duration_refusal(duration_ms: Option<u64>) -> bool {
    !(duration_ms matches Some(d) && 0 < d <= crate::timeline::MAX_AUDIO_DURATION_MS)
}

/// The audio's duration; refused with `code` unless it is between one
/// millisecond and one day.
pub fn required_duration(duration_ms: Option<u64>, code: TimelineDomainErrorCode) -> (result: Result<
    u64,
    TimelineDomainError,
>)
    ensures
        result is Ok <==> !duration_refusal(duration_ms),
        result matches Ok(d) ==> duration_ms == Some(d),
        result matches Err(error) ==> error.code == code && error.message@ == "durationMs 缺失或无效。"@,
{
    match duration_ms {
        Some(d) => {
            if d > 0 && d <= crate::timeline::MAX_AUDIO_DURATION_MS {
                Ok(d)
            } else {
                Err(TimelineDomainError::new(code, "durationMs 缺失或无效。"))
            }
        },
        None => Err(TimelineDomainError::new(code, "durationMs 缺失或无效。")),
    }
}


/// The summary a built timeline carries.
pub const BUILD_CHANGE_SUMMARY: &'static str = "Deterministic timeline assembled from approved structured media inputs.";

/// The identifier of a timeline built from a stable request: `timeline_` and
/// the lowercase hexadecimal SHA-256 of the request's canonical bytes.
pub open spec fn stable_timeline_id_for(request: Seq<u8>) -> Seq<char> {
    "timeline_"@ + hex_lower(sha256_spec(request))
}

/// Computes [`stable_timeline_id_for`]; the identifier is portable.
pub fn stable_timeline_id(request: &[u8]) -> (id: String)
    ensures
        id@ == stable_timeline_id_for(request@),
        portable_id_spec(id@, 160),
{
    let digest = sha256_digest(request);
    let hex = lowercase_hex(&digest);
    let mut id = String::from_str("timeline_");
    id.append(hex.as_str());
    proof {
        reveal_strlit("timeline_");
        lemma_hex_lower_digits(digest@);
        assert forall|i: int| 0 <= i < id@.len() implies crate::identifiers::is_portable_char(
            #[trigger] id@[i],
        ) by {
            if i >= 9 {
                assert(id@[i] == hex@[i - 9]);
                assert(is_lower_hex(hex@[i - 9]));
            }
        }
    }
    id
}

/// The scene track a scene plan projects: each scene's identifier with its
/// suggested start and end.
pub open spec fn projected_track(scenes: Seq<ScenePlanSceneInput>) -> Seq<TimelineScene> {
    scenes.map_values(
        |s: ScenePlanSceneInput|
            TimelineScene {
                scene_id: s.scene_id,
                start_ms: s.suggested_start_ms.unwrap(),
                end_ms: s.suggested_end_ms.unwrap(),
            },
    )
}

/// The scene identifiers of a track.
pub open spec fn track_ids(scenes: Seq<TimelineScene>) -> Seq<Seq<char>> {
    scenes.map_values(|s: TimelineScene| s.scene_id@)
}

/// Why a timeline cannot be built, if it cannot: the code and the message.
pub open spec fn build_refusal(options: BuildTimelineOptions) -> Option<
    (TimelineDomainErrorCode, Seq<char>),
> {
    let invalid_input = TimelineDomainErrorCode::InvalidInput;
    let duration = options.audio_document.duration_ms.unwrap();
    let cues = options.captions_document.cues@;
    let scenes = options.scene_plan_document.scenes@;
    if build_options_refusal(options) is Some {
        Some((TimelineDomainErrorCode::InvalidRequest, build_options_refusal(options).unwrap()))
    } else if source_identity_refusal(options) is Some {
        Some((invalid_input, source_identity_refusal(options).unwrap()))
    } else if duration_refusal(options.audio_document.duration_ms) {
        Some((invalid_input, "durationMs 缺失或无效。"@))
    } else if caption_cues_refusal(cues, duration) is Some {
        Some((invalid_input, caption_cues_refusal(cues, duration).unwrap()))
    } else if options.scene_plan_document.semantic_refusal is Some {
        Some(
            (
                invalid_input,
                "ScenePlanDocument 语义无效："@ + options.scene_plan_document.semantic_refusal.unwrap()@,
            ),
        )
    } else if scene_plan_captions_refusal(scenes, inputs_trace(cues), duration) is Some {
        Some((invalid_input, scene_plan_captions_refusal(scenes, inputs_trace(cues), duration).unwrap()))
    } else if scene_track_refusal(projected_track(scenes), duration) is Some {
        Some(
            (
                TimelineDomainErrorCode::InvalidTimeline,
                scene_track_refusal(projected_track(scenes), duration).unwrap(),
            ),
        )
    } else {
        None
    }
}

/// The scene track of the accepted scenes of a plan.
fn project_scene_track(scenes: &[ScenePlanSceneInput]) -> (track: Vec<TimelineScene>)
    requires
        forall|i: int|
            0 <= i < scenes@.len() ==> (#[trigger] scenes@[i]).suggested_start_ms is Some
                && scenes@[i].suggested_end_ms is Some,
    ensures
        track@ == projected_track(scenes@),
{
    let mut track: Vec<TimelineScene> = Vec::new();
    let mut i: usize = 0;
    while i < scenes.len()
        invariant
            0 <= i <= scenes@.len(),
            forall|i: int|
                0 <= i < scenes@.len() ==> (#[trigger] scenes@[i]).suggested_start_ms is Some
                    && scenes@[i].suggested_end_ms is Some,
            track@ == projected_track(scenes@).take(i as int),
        decreases scenes@.len() - i,
    {
        let scene = &scenes[i];
        let start_ms = scene.suggested_start_ms.unwrap();
        let end_ms = scene.suggested_end_ms.unwrap();
        track.push(TimelineScene { scene_id: scene.scene_id.clone(), start_ms, end_ms });
        assert(track@ =~= projected_track(scenes@).take(i + 1));
        i = i + 1;
    }
    assert(projected_track(scenes@).take(scenes@.len() as int) =~= projected_track(scenes@));
    track
}


/// A document assembled from an accepted build request is a valid timeline,
/// except that its scene track may still be refused.
proof fn lemma_assembled_timeline(options: BuildTimelineOptions, doc: TimelineDocument)
    requires
        build_options_refusal(options) is None,
        !duration_refusal(options.audio_document.duration_ms),
        caption_cues_refusal(options.captions_document.cues@, doc.duration_ms) is None,
        options.audio_document.duration_ms == Some(doc.duration_ms),
        doc.document_type@ == "timeline"@,
        doc.project_id@ == options.project_id@,
        doc.run_id@ == options.run_id@,
        portable_id_spec(doc.timeline_id@, 160),
        doc.created_at@ == options.created_at@,
        doc.config_snapshot@ == options.config_snapshot@,
        doc.canvas == options.canvas,
        doc.safe_area == options.safe_area,
        doc.input_refs@.len() == 3,
        input_ref_view(doc.input_refs@[0]) == (options.project_id@, frozen_view(options.audio_input)),
        input_ref_view(doc.input_refs@[1]) == (options.project_id@, frozen_view(options.captions_input)),
        input_ref_view(doc.input_refs@[2]) == (
            options.project_id@,
            frozen_view(options.scene_plan_input),
        ),
        doc.audio_track.audio_artifact_id@ == options.audio_input.artifact_id@,
        doc.audio_track.start_ms == 0,
        doc.audio_track.end_ms == doc.duration_ms,
        doc.caption_track.captions_artifact_id@ == options.captions_input.artifact_id@,
        texts(doc.caption_track.cue_ids@) == closure_ids(inputs_trace(options.captions_document.cues@)),
        doc.change_summary.summary@ == BUILD_CHANGE_SUMMARY@,
        strictly_ascending(texts(doc.change_summary.changed_scene_ids@)),
        texts(doc.change_summary.changed_scene_ids@).to_set() == track_ids(doc.scene_track@).to_set(),
    ensures
        timeline_refusal(doc) == if scene_track_refusal(doc.scene_track@, doc.duration_ms) is Some {
            Some(
                (
                    TimelineDomainErrorCode::InvalidTimeline,
                    scene_track_refusal(doc.scene_track@, doc.duration_ms).unwrap(),
                ),
            )
        } else {
            None::<(TimelineDomainErrorCode, Seq<char>)>
        },
{
    reveal_strlit("timeline");
    reveal_strlit("audio");
    reveal_strlit("captions");
    reveal_strlit("scene_plan");
    reveal_strlit("Deterministic timeline assembled from approved structured media inputs.");
    let refs = doc.input_refs@;
    let inputs = ref_inputs(refs);
    let project = doc.project_id@;
    // The recorded inputs are the frozen inputs, each valid for its stage.
    assert(frozen_input_valid(refs[0].input, "audio"@));
    assert(frozen_input_valid(refs[1].input, "captions"@));
    assert(frozen_input_valid(refs[2].input, "scene_plan"@));
    assert("audio"@ != "captions"@);
    assert("audio"@.len() == 5 && "scene_plan"@.len() == 10);
    assert("audio"@ != "scene_plan"@);
    assert("captions"@ != "scene_plan"@);
    assert(input_ref_refusal(refs, project, 0) is None);
    assert(input_ref_refusal(refs, project, 1) is None);
    assert(input_ref_refusal(refs, project, 2) is None);
    assert(first_input_ref_refusal(refs, project, 3) is None);
    assert(first_input_ref_refusal(refs, project, 2) is None);
    assert(first_input_ref_refusal(refs, project, 1) is None);
    assert(first_input_ref_refusal(refs, project, 0) is None);
    assert(input_of_stage(inputs, 0, "audio"@));
    assert(input_of_stage(inputs, 1, "captions"@));
    assert(input_of_stage(inputs, 2, "scene_plan"@));
    assert(stage_input_refusal(inputs, "audio"@) is None);
    assert(stage_input_refusal(inputs, "captions"@) is None);
    assert(stage_input_refusal(inputs, "scene_plan"@) is None);
    assert(input_refs_refusal(refs, project) is None);
    let a = choose|i: int| input_of_stage(inputs, i, "audio"@);
    assert(input_of_stage(inputs, a, "audio"@));
    assert(a == 0);
    let c = choose|i: int| input_of_stage(inputs, i, "captions"@);
    assert(input_of_stage(inputs, c, "captions"@));
    assert(c == 1);
    assert(stage_input(inputs, "audio"@).artifact_id@ == options.audio_input.artifact_id@);
    assert(stage_input(inputs, "captions"@).artifact_id@ == options.captions_input.artifact_id@);
    // The caption track lists the accepted cues.
    let cues = options.captions_document.cues@;
    let ids = texts(doc.caption_track.cue_ids@);
    assert forall|k: int| 0 <= k < cues.len() implies #[trigger] cue_refusal(
        cues,
        k,
        doc.duration_ms,
    ) is None by {
        crate::timeline_build::lemma_cue_list_accepts(cues, doc.duration_ms, cues.len() as int);
    }
    assert forall|k: int| 0 <= k < ids.len() implies portable_id_spec(#[trigger] ids[k], 160) && forall|j: int|
        0 <= j < k ==> ids[j] != ids[k] by {
        assert(cue_refusal(cues, k, doc.duration_ms) is None);
        assert(ids[k] == cues[k].cue_id.unwrap()@);
        assert forall|j: int| 0 <= j < k implies ids[j] != ids[k] by {
            assert(ids[j] == cues[j].cue_id.unwrap()@);
        }
    }
    assert(cue_ids_refusal(ids) is None);
    // The change summary names exactly the scenes of the track.
    let changed = texts(doc.change_summary.changed_scene_ids@);
    assert forall|k: int| 0 <= k < changed.len() implies has_scene(doc.scene_track@, #[trigger] changed[k]) by {
        assert(changed.to_set().contains(changed[k]));
        assert(track_ids(doc.scene_track@).to_set().contains(changed[k]));
        let j = choose|j: int| 0 <= j < track_ids(doc.scene_track@).len() && track_ids(doc.scene_track@)[j] == changed[k];
        assert(doc.scene_track@[j].scene_id@ == changed[k]);
    }
    assert(change_summary_valid(doc.change_summary.summary@, changed, doc.scene_track@));
}


/// The references a timeline records for its three frozen inputs: audio,
/// captions and scene plan, in that order.
fn frozen_input_refs(options: &BuildTimelineOptions) -> (refs: Vec<TimelineInputRef>)
    ensures
        refs@.len() == 3,
        input_ref_view(refs@[0]) == (options.project_id@, frozen_view(options.audio_input)),
        input_ref_view(refs@[1]) == (options.project_id@, frozen_view(options.captions_input)),
        input_ref_view(refs@[2]) == (options.project_id@, frozen_view(options.scene_plan_input)),
{
    let mut refs: Vec<TimelineInputRef> = Vec::new();
    refs.push(frozen_input_document(options.project_id.as_str(), &options.audio_input));
    refs.push(frozen_input_document(options.project_id.as_str(), &options.captions_input));
    refs.push(frozen_input_document(options.project_id.as_str(), &options.scene_plan_input));
    refs
}

/// Checks that a built timeline records exactly the frozen inputs, projects
/// the scene plan's boundaries and lists every caption cue in order.
fn validate_timeline_against_sources(
    doc: &TimelineDocument,
    expected_refs: &[TimelineInputRef],
    expected_scenes: &[TimelineScene],
    cues: &[CaptionCueClosure],
) -> (result: Result<(), TimelineDomainError>)
    ensures
        result is Ok <==> {
            &&& doc.input_refs@.len() == expected_refs@.len()
            &&& forall|k: int|
                0 <= k < expected_refs@.len() ==> input_ref_view(#[trigger] doc.input_refs@[k])
                    == input_ref_view(expected_refs@[k])
            &&& track_ids(doc.scene_track@) == track_ids(expected_scenes@)
            &&& doc.scene_track@.len() == expected_scenes@.len()
            &&& forall|k: int|
                0 <= k < expected_scenes@.len() ==> (#[trigger] doc.scene_track@[k]).start_ms
                    == expected_scenes@[k].start_ms && doc.scene_track@[k].end_ms
                    == expected_scenes@[k].end_ms
            &&& texts(doc.caption_track.cue_ids@) == closure_ids(closures_trace(cues@))
        },
        result matches Err(error) ==> error.code == TimelineDomainErrorCode::InvalidTimeline,
{
    if doc.input_refs.len() != expected_refs.len() {
        return Err(
            TimelineDomainError::new(
                TimelineDomainErrorCode::InvalidTimeline,
                "Timeline inputRefs 未精确冻结 Audio/Captions/ScenePlan 输入。",
            ),
        );
    }
    let mut k: usize = 0;
    while k < expected_refs.len()
        invariant
            doc.input_refs@.len() == expected_refs@.len(),
            0 <= k <= expected_refs@.len(),
            forall|q: int|
                0 <= q < k ==> input_ref_view(#[trigger] doc.input_refs@[q]) == input_ref_view(
                    expected_refs@[q],
                ),
        decreases expected_refs@.len() - k,
    {
        if !same_input_ref(&doc.input_refs[k], &expected_refs[k]) {
            return Err(
                TimelineDomainError::new(
                    TimelineDomainErrorCode::InvalidTimeline,
                    "Timeline inputRefs 未精确冻结 Audio/Captions/ScenePlan 输入。",
                ),
            );
        }
        k = k + 1;
    }
    if doc.scene_track.len() != expected_scenes.len() {
        return Err(
            TimelineDomainError::new(
                TimelineDomainErrorCode::InvalidTimeline,
                "Timeline sceneTrack 未精确投影 ScenePlanDocument 边界。",
            ),
        );
    }
    let mut j: usize = 0;
    while j < expected_scenes.len()
        invariant
            doc.scene_track@.len() == expected_scenes@.len(),
            0 <= j <= expected_scenes@.len(),
            forall|q: int|
                0 <= q < j ==> (#[trigger] doc.scene_track@[q]).scene_id@
                    == expected_scenes@[q].scene_id@ && doc.scene_track@[q].start_ms
                    == expected_scenes@[q].start_ms && doc.scene_track@[q].end_ms
                    == expected_scenes@[q].end_ms,
        decreases expected_scenes@.len() - j,
    {
        let a = &doc.scene_track[j];
        let b = &expected_scenes[j];
        if !same_text(a.scene_id.as_str(), b.scene_id.as_str()) || a.start_ms != b.start_ms
            || a.end_ms != b.end_ms {
            proof {
                if track_ids(doc.scene_track@) == track_ids(expected_scenes@) {
                    assert(track_ids(doc.scene_track@)[j as int] == track_ids(expected_scenes@)[j as int]);
                }
            }
            return Err(
                TimelineDomainError::new(
                    TimelineDomainErrorCode::InvalidTimeline,
                    "Timeline sceneTrack 未精确投影 ScenePlanDocument 边界。",
                ),
            );
        }
        j = j + 1;
    }
    assert(track_ids(doc.scene_track@) =~= track_ids(expected_scenes@));
    let mut expected_cues: Vec<String> = Vec::new();
    let mut c: usize = 0;
    while c < cues.len()
        invariant
            0 <= c <= cues@.len(),
            texts(expected_cues@) == closure_ids(closures_trace(cues@)).take(c as int),
        decreases cues@.len() - c,
    {
        let ghost prior = texts(expected_cues@);
        expected_cues.push(cues[c].cue_id.clone());
        assert(texts(expected_cues@) =~= prior.push(cues@[c as int].cue_id@));
        assert(closure_ids(closures_trace(cues@)).take(c + 1) =~= closure_ids(closures_trace(cues@)).take(
            c as int,
        ).push(cues@[c as int].cue_id@));
        c = c + 1;
    }
    assert(closure_ids(closures_trace(cues@)).take(cues@.len() as int) =~= closure_ids(
        closures_trace(cues@),
    ));
    if !same_texts(doc.caption_track.cue_ids.as_slice(), expected_cues.as_slice()) {
        return Err(
            TimelineDomainError::new(
                TimelineDomainErrorCode::InvalidTimeline,
                "Timeline captionTrack 未完整有序引用 Captions cue。",
            ),
        );
    }
    Ok(())
}

/// The identifier of the timeline a build request makes (see
/// [`timeline_stable_request`]).
pub fn timeline_id_for_options(options: &BuildTimelineOptions) -> (id: String)
    ensures
        id@ == stable_timeline_id_for(timeline_stable_request(*options)),
        portable_id_spec(id@, 160),
{
    let request = timeline_request(
        options.project_id.as_str(),
        options.run_id.as_str(),
        options.stable_seed.as_str(),
        options.audio_document.identity.canonical_json.as_slice(),
        options.captions_document.identity.canonical_json.as_slice(),
        options.scene_plan_document.identity.canonical_json.as_slice(),
        &options.audio_input,
        &options.captions_input,
        &options.scene_plan_input,
        options.canvas,
        options.safe_area,
        options.config_snapshot.as_str(),
    );
    proof {
        reveal(timeline_stable_request);
    }
    stable_timeline_id(request.as_str().as_bytes())
}

/// What a timeline built from `options` is: valid, identified by its stable
/// request, and projected exactly from the three source documents.
pub open spec fn timeline_built(options: BuildTimelineOptions, doc: TimelineDocument) -> bool {
    &&& timeline_refusal(doc) is None
    &&& doc.schema_version@ == options.schema_version@
    &&& doc.document_type@ == "timeline"@
    &&& doc.timeline_id@ == stable_timeline_id_for(timeline_stable_request(options))
    &&& doc.project_id@ == options.project_id@
    &&& doc.run_id@ == options.run_id@
    &&& options.audio_document.duration_ms == Some(doc.duration_ms)
    &&& doc.canvas == options.canvas
    &&& doc.safe_area == options.safe_area
    &&& doc.audio_track.audio_artifact_id@ == options.audio_input.artifact_id@
    &&& doc.audio_track.start_ms == 0
    &&& doc.audio_track.end_ms == doc.duration_ms
    &&& doc.scene_track@ == projected_track(options.scene_plan_document.scenes@)
    &&& doc.caption_track.captions_artifact_id@ == options.captions_input.artifact_id@
    &&& texts(doc.caption_track.cue_ids@) == closure_ids(
        inputs_trace(options.captions_document.cues@),
    )
    &&& doc.caption_track.visible
    &&& doc.input_refs@.len() == 3
    &&& input_ref_view(doc.input_refs@[0]) == (
        options.project_id@,
        frozen_view(options.audio_input),
    )
    &&& input_ref_view(doc.input_refs@[1]) == (
        options.project_id@,
        frozen_view(options.captions_input),
    )
    &&& input_ref_view(doc.input_refs@[2]) == (
        options.project_id@,
        frozen_view(options.scene_plan_input),
    )
    &&& doc.config_snapshot@ == options.config_snapshot@
    &&& doc.change_summary.summary@ == BUILD_CHANGE_SUMMARY@
    &&& strictly_ascending(texts(doc.change_summary.changed_scene_ids@))
    &&& texts(doc.change_summary.changed_scene_ids@).to_set() == track_ids(
        doc.scene_track@,
    ).to_set()
    &&& doc.created_at@ == options.created_at@
    &&& doc.supersedes_artifact_id is None
}

/// Builds a timeline from approved audio, captions and a scene plan: the
/// audio track covers the whole audio, the scene track projects the plan's
/// scene boundaries, the caption track lists every cue in order, the three
/// frozen inputs are recorded, and the identifier is the digest of the stable
/// request.
pub fn build_timeline_document(options: BuildTimelineOptions) -> (result: Result<
    TimelineDocument,
    TimelineDomainError,
>)
    ensures
        result is Ok <==> build_refusal(options) is None,
        result matches Err(error) ==> Some((error.code, error.message@)) == build_refusal(options),
        result matches Ok(doc) ==> timeline_built(options, doc),
{
    validate_build_options(&options)?;
    validate_source_identities(&options)?;
    let duration_ms = required_duration(
        options.audio_document.duration_ms,
        TimelineDomainErrorCode::InvalidInput,
    )?;
    let closures = validated_caption_cues(options.captions_document.cues.as_slice(), duration_ms)?;
    if let Some(refusal) = &options.scene_plan_document.semantic_refusal {
        let mut message = String::from_str("ScenePlanDocument 语义无效：");
        message.append(refusal.as_str());
        return Err(crate::timeline::error_with(TimelineDomainErrorCode::InvalidInput, message));
    }
    let scenes = options.scene_plan_document.scenes.as_slice();
    validate_scene_plan_against_captions(scenes, closures.as_slice(), duration_ms)?;
    proof {
        crate::timeline_build::lemma_plan_scenes_accept_bounds(
            closures_trace(closures@),
            scenes@,
            duration_ms,
        );
    }
    let scene_track = project_scene_track(scenes);
    let mut cue_ids: Vec<String> = Vec::new();
    let mut c: usize = 0;
    while c < closures.len()
        invariant
            0 <= c <= closures@.len(),
            texts(cue_ids@) == closure_ids(closures_trace(closures@)).take(c as int),
        decreases closures@.len() - c,
    {
        let ghost prior = texts(cue_ids@);
        cue_ids.push(closures[c].cue_id.clone());
        assert(texts(cue_ids@) =~= prior.push(closures@[c as int].cue_id@));
        assert(closure_ids(closures_trace(closures@)).take(c + 1) =~= closure_ids(
            closures_trace(closures@),
        ).take(c as int).push(closures@[c as int].cue_id@));
        c = c + 1;
    }
    assert(closure_ids(closures_trace(closures@)).take(closures@.len() as int) =~= closure_ids(
        closures_trace(closures@),
    ));
    let mut changed: Vec<String> = Vec::new();
    let mut s: usize = 0;
    proof {
        assert(texts(changed@).to_set() =~= track_ids(scene_track@).take(0).to_set());
    }
    while s < scene_track.len()
        invariant
            0 <= s <= scene_track@.len(),
            strictly_ascending(texts(changed@)),
            texts(changed@).to_set() == track_ids(scene_track@).take(s as int).to_set(),
        decreases scene_track@.len() - s,
    {
        insert_sorted(&mut changed, scene_track[s].scene_id.as_str());
        proof {
            let ids = track_ids(scene_track@);
            assert(ids.take(s + 1) =~= ids.take(s as int).push(ids[s as int]));
            ids.take(s as int).lemma_push_to_set_commute(ids[s as int]);
        }
        s = s + 1;
    }
    assert(track_ids(scene_track@).take(scene_track@.len() as int) =~= track_ids(scene_track@));
    let input_refs = frozen_input_refs(&options);
    let expected_refs = frozen_input_refs(&options);
    let expected_scenes = project_scene_track(scenes);
    let timeline_id = timeline_id_for_options(&options);
    let doc = TimelineDocument {
        schema_version: options.schema_version.clone(),
        document_type: "timeline".to_owned(),
        timeline_id,
        project_id: options.project_id.clone(),
        run_id: options.run_id.clone(),
        duration_ms,
        canvas: options.canvas,
        audio_track: TimelineAudioTrack {
            audio_artifact_id: options.audio_input.artifact_id.clone(),
            start_ms: 0,
            end_ms: duration_ms,
        },
        scene_track,
        caption_track: TimelineCaptionTrack {
            captions_artifact_id: options.captions_input.artifact_id.clone(),
            cue_ids,
            visible: true,
        },
        safe_area: options.safe_area,
        input_refs,
        config_snapshot: options.config_snapshot.clone(),
        change_summary: TimelineChangeSummary {
            summary: BUILD_CHANGE_SUMMARY.to_owned(),
            changed_scene_ids: changed,
        },
        created_at: options.created_at.clone(),
        supersedes_artifact_id: None,
    };
    proof {
        reveal_strlit("timeline");
        lemma_assembled_timeline(options, doc);
    }
    validate_timeline_semantics(&doc)?;
    match validate_timeline_against_sources(&doc, expected_refs.as_slice(), expected_scenes.as_slice(), closures.as_slice()) {
        Ok(()) => {},
        Err(error) => {
            proof {
                assert(track_ids(doc.scene_track@) =~= track_ids(expected_scenes@));
            }
            return Err(error);
        },
    }
    Ok(doc)
}

} // verus!
