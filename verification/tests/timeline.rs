use narracut_core::media_error::{MediaErrorCode, MediaOperation};
use narracut_core::media_receipts::MediaReceiptFields;
use narracut_core::media_types::SaveTimelineOptions;
use narracut_core::timeline_save::timeline_save_identity;
use narracut_core::timeline_save_run::{
    start_timeline_save, timeline_save_step, TimelineSaveAction, TimelineSaveEvent, TimelineSaveStage,
    TimelineSaveState, DRY_RUN_CREATED_AT,
};
use narracut_core::media_types::GenerateTimelineOptions;
use narracut_core::timeline_generation::{
    generation_request_fingerprint, start_timeline_generation, timeline_generation_step,
    TimelineGenerationAction, TimelineGenerationEvent, TimelineGenerationStage,
    MEDIA_SCHEMA_VERSION, TIMELINE_CONFIG_SNAPSHOT,
};
use narracut_core::media_types::{
    FrozenArtifactInputData, TimelineCanvasData, TimelineEditData, TimelineSafeAreaData,
};
use narracut_core::timeline::{TimelineDomainErrorCode, TimelineScene};
use narracut_core::timeline_assembly::{
    build_timeline_document, AudioSourceDocument, BuildTimelineOptions, CaptionsSourceDocument,
    ScenePlanSourceDocument, SourceDocumentIdentity,
};
use narracut_core::timeline_build::{CaptionCueInput, ScenePlanSceneInput, TextListField};
use narracut_core::timeline_document::{
    apply_timeline_edits, validate_timeline_semantics, ApplyTimelineEditsOptions,
    TimelineDocument, TimelineInputRef,
};

const PROJECT_ID: &str = "project_timeline";
const AUDIO_DURATION_MS: u64 = 100;

fn sha(character: char) -> String {
    format!("sha256:{}", character.to_string().repeat(64))
}

fn strings(values: &[&str]) -> Vec<String> {
    values.iter().map(|value| (*value).to_owned()).collect()
}

fn frozen(stage_id: &str, hash_character: char) -> FrozenArtifactInputData {
    FrozenArtifactInputData {
        stage_id: stage_id.to_owned(),
        run_id: format!("run_{stage_id}_timeline"),
        artifact_id: format!("artifact_{stage_id}_timeline"),
        content_hash: sha(hash_character),
        review_record_id: format!("review_{stage_id}_timeline"),
        claim_ids: strings(&["claim_1"]),
        evidence_refs: strings(&["evidence_1"]),
    }
}

fn input_ref(input: &FrozenArtifactInputData) -> TimelineInputRef {
    TimelineInputRef {
        project_id: PROJECT_ID.to_owned(),
        input: input.clone(),
    }
}

fn identity(document_type: &str, run_id: &str, refs: Vec<TimelineInputRef>) -> SourceDocumentIdentity {
    SourceDocumentIdentity {
        document_type: Some(document_type.to_owned()),
        project_id: Some(PROJECT_ID.to_owned()),
        run_id: Some(run_id.to_owned()),
        canonical_json: format!("{{\"documentType\":\"{document_type}\",\"runId\":\"{run_id}\"}}").into_bytes(),
        input_refs: refs,
    }
}

fn cue(index: u64, start_ms: u64, end_ms: u64, claims: &[&str], evidence: &[&str]) -> CaptionCueInput {
    CaptionCueInput {
        cue_id: Some(format!("cue_{index}")),
        source_index: Some(index),
        start_ms: Some(start_ms),
        end_ms: Some(end_ms),
        claim_ids: TextListField::Items(strings(claims)),
        evidence_refs: TextListField::Items(strings(evidence)),
    }
}

fn plan_scene(id: &str, start: u64, end: u64, cues: &[&str], claims: &[&str], evidence: &[&str]) -> ScenePlanSceneInput {
    ScenePlanSceneInput {
        scene_id: id.to_owned(),
        suggested_start_ms: Some(start),
        suggested_end_ms: Some(end),
        cue_ids: Some(cues.iter().map(|cue| Some((*cue).to_owned())).collect()),
        claim_ids: TextListField::Items(strings(claims)),
        evidence_refs: TextListField::Items(strings(evidence)),
    }
}

fn build_options() -> BuildTimelineOptions {
    let audio_input = frozen("audio", 'a');
    let captions_input = frozen("captions", 'b');
    let scene_plan_input = frozen("scene_plan", 'c');
    BuildTimelineOptions {
        audio_document: AudioSourceDocument {
            identity: identity("audio_media", &audio_input.run_id, vec![input_ref(&frozen("script", 'e'))]),
            duration_ms: Some(AUDIO_DURATION_MS),
        },
        captions_document: CaptionsSourceDocument {
            identity: identity(
                "captions_media",
                &captions_input.run_id,
                vec![input_ref(&frozen("script", 'e')), input_ref(&audio_input)],
            ),
            audio_input: Some(input_ref(&audio_input)),
            cues: vec![
                cue(1, 5, 20, &["claim_1"], &["evidence_1"]),
                cue(2, 25, 40, &["claim_2", "claim_1"], &["evidence_1"]),
                cue(3, 45, 60, &["claim_3"], &["evidence_2"]),
                cue(4, 70, 90, &["claim_4"], &["evidence_3"]),
            ],
        },
        scene_plan_document: ScenePlanSourceDocument {
            identity: identity(
                "scene_plan",
                &scene_plan_input.run_id,
                vec![
                    input_ref(&frozen("research", 'd')),
                    input_ref(&frozen("script", 'e')),
                    input_ref(&captions_input),
                ],
            ),
            scenes: vec![
                plan_scene(
                    "scene_001",
                    0,
                    60,
                    &["cue_1", "cue_2", "cue_3"],
                    &["claim_1", "claim_2", "claim_3"],
                    &["evidence_1", "evidence_2"],
                ),
                plan_scene("scene_002", 60, AUDIO_DURATION_MS, &["cue_4"], &["claim_4"], &["evidence_3"]),
            ],
            semantic_refusal: None,
        },
        audio_input,
        captions_input,
        scene_plan_input,
        canvas: TimelineCanvasData {
            width: 1_920,
            height: 1_080,
            frame_rate_numerator: 30_000,
            frame_rate_denominator: 1_001,
        },
        safe_area: TimelineSafeAreaData {
            x: 96,
            y: 54,
            width: 1_728,
            height: 972,
        },
        config_snapshot: "{\"captionsVisible\":true,\"layout\":\"landscape\"}".to_owned(),
        project_id: PROJECT_ID.to_owned(),
        run_id: "run_timeline_base".to_owned(),
        stable_seed: "timeline-seed-v1".to_owned(),
        created_at: "2026-07-18T08:30:00Z".to_owned(),
        schema_version: "narracut.media/v1".to_owned(),
    }
}

fn built_timeline() -> TimelineDocument {
    build_timeline_document(build_options()).expect("fixture Timeline")
}

fn scene(id: &str, start_ms: u64, end_ms: u64) -> TimelineScene {
    TimelineScene {
        scene_id: id.to_owned(),
        start_ms,
        end_ms,
    }
}

fn three_scene_timeline() -> TimelineDocument {
    let mut timeline = built_timeline();
    timeline.scene_track = vec![
        scene("scene_a", 0, 30),
        scene("scene_b", 30, 60),
        scene("scene_c", 60, AUDIO_DURATION_MS),
    ];
    timeline.change_summary.changed_scene_ids = strings(&["scene_a", "scene_b", "scene_c"]);
    validate_timeline_semantics(&timeline).expect("three-Scene fixture semantics");
    timeline
}

fn edit_options(base: &TimelineDocument, edits: Vec<TimelineEditData>) -> ApplyTimelineEditsOptions {
    ApplyTimelineEditsOptions {
        base_timeline_document: base.clone(),
        edits,
        change_summary: "Bounded Timeline edit fixture.".to_owned(),
        new_run_id: "run_timeline_error".to_owned(),
        new_timeline_id: "timeline_error".to_owned(),
        created_at: "2026-07-18T09:20:00Z".to_owned(),
        base_artifact_id: "artifact_timeline_base".to_owned(),
    }
}

fn apply_error(base: &TimelineDocument, edits: Vec<TimelineEditData>) -> TimelineDomainErrorCode {
    apply_timeline_edits(edit_options(base, edits))
        .expect_err("Timeline edit must fail")
        .code
}

fn assert_build_code(options: BuildTimelineOptions, expected: TimelineDomainErrorCode) {
    assert_eq!(
        build_timeline_document(options)
            .expect_err("Timeline build must fail")
            .code,
        expected
    );
}

fn assert_semantic_error(document: &TimelineDocument) {
    assert!(
        validate_timeline_semantics(document).is_err(),
        "semantic validator unexpectedly accepted {document:?}"
    );
}

fn assert_changed_ids(document: &TimelineDocument, expected: &[&str]) {
    let mut expected = strings(expected);
    expected.sort();
    expected.dedup();
    assert_eq!(document.change_summary.changed_scene_ids, expected);
}

#[test]
fn build_is_deterministic_schema_valid_traceable_and_projects_all_three_tracks() {
    let options = build_options();
    let first = build_timeline_document(options.clone()).expect("build Timeline");
    let second = build_timeline_document(options.clone()).expect("repeat Timeline");
    assert_eq!(first, second);
    validate_timeline_semantics(&first).expect("Timeline semantics");

    assert_eq!(first.duration_ms, AUDIO_DURATION_MS);
    assert_eq!(first.canvas.width, 1_920);
    assert_eq!(first.canvas.frame_rate_numerator, 30_000);
    assert_eq!(first.canvas.frame_rate_denominator, 1_001);
    assert_eq!(first.audio_track.audio_artifact_id, options.audio_input.artifact_id);
    assert_eq!(first.audio_track.start_ms, 0);
    assert_eq!(first.audio_track.end_ms, AUDIO_DURATION_MS);
    assert_eq!(
        first.caption_track.captions_artifact_id,
        options.captions_input.artifact_id
    );
    assert_eq!(
        first.caption_track.cue_ids,
        strings(&["cue_1", "cue_2", "cue_3", "cue_4"])
    );
    assert!(first.caption_track.visible);

    let scenes = &first.scene_track;
    assert_eq!(scenes.len(), 2);
    assert_eq!(scenes[0].start_ms, 0);
    assert_eq!(scenes.last().expect("last Scene").end_ms, AUDIO_DURATION_MS);
    assert!(scenes.windows(2).all(|pair| pair[0].end_ms == pair[1].start_ms));
    for (timeline_scene, plan_scene) in scenes.iter().zip(options.scene_plan_document.scenes.iter()) {
        assert_eq!(timeline_scene.scene_id, plan_scene.scene_id);
        assert_eq!(Some(timeline_scene.start_ms), plan_scene.suggested_start_ms);
        assert_eq!(Some(timeline_scene.end_ms), plan_scene.suggested_end_ms);
    }
    assert_eq!(
        first
            .input_refs
            .iter()
            .map(|input| input.input.stage_id.as_str())
            .collect::<Vec<_>>(),
        vec!["audio", "captions", "scene_plan"]
    );

    let mut expected_changed = scenes
        .iter()
        .map(|scene| scene.scene_id.clone())
        .collect::<Vec<_>>();
    expected_changed.sort();
    assert_eq!(first.change_summary.changed_scene_ids, expected_changed);
    let projected_tracks = format!("{:?} {:?}", first.scene_track, first.caption_track);
    assert!(!projected_tracks.contains("Opening evidence-backed caption."));
    assert!(!projected_tracks.contains("claim_1"));
    assert!(!projected_tracks.contains("evidence_1"));

    let mut later_time = options.clone();
    later_time.created_at = "2026-07-18T10:00:00Z".to_owned();
    let later_time = build_timeline_document(later_time).expect("stable ID across clock time");
    assert_eq!(first.timeline_id, later_time.timeline_id);
    let mut changed_seed = options;
    changed_seed.stable_seed = "timeline-seed-v2".to_owned();
    let changed_seed = build_timeline_document(changed_seed).expect("changed stable seed");
    assert_ne!(first.timeline_id, changed_seed.timeline_id);
}

#[test]
fn edits_are_pure_sequential_atomic_and_report_only_boundary_scene_ids() {
    let base = built_timeline();
    let original = base.clone();
    let left_scene_id = base.scene_track[0].scene_id.clone();
    let right_scene_id = base.scene_track[1].scene_id.clone();
    let edited = apply_timeline_edits(ApplyTimelineEditsOptions {
        base_timeline_document: base.clone(),
        edits: vec![
            TimelineEditData::MoveSceneBoundary {
                left_scene_id: left_scene_id.clone(),
                right_scene_id: right_scene_id.clone(),
                boundary_ms: 55,
            },
            TimelineEditData::SetSafeArea {
                safe_area: TimelineSafeAreaData {
                    x: 100,
                    y: 50,
                    width: 1_600,
                    height: 900,
                },
            },
            TimelineEditData::SetCaptionVisibility { visible: false },
        ],
        change_summary: "Move an adjacent boundary and update presentation controls.".to_owned(),
        new_run_id: "run_timeline_edited".to_owned(),
        new_timeline_id: "timeline_edited".to_owned(),
        created_at: "2026-07-18T09:00:00Z".to_owned(),
        base_artifact_id: "artifact_timeline_base".to_owned(),
    })
    .expect("apply three Timeline edit types");

    assert_eq!(base, original, "base Timeline must remain immutable");
    assert_eq!(edited.run_id, "run_timeline_edited");
    assert_eq!(edited.timeline_id, "timeline_edited");
    assert_eq!(
        edited.supersedes_artifact_id.as_deref(),
        Some("artifact_timeline_base")
    );
    assert_eq!(edited.created_at, "2026-07-18T09:00:00Z");
    assert_eq!(edited.scene_track[0].end_ms, 55);
    assert_eq!(edited.scene_track[1].start_ms, 55);
    assert_eq!(
        edited.safe_area,
        TimelineSafeAreaData {
            x: 100,
            y: 50,
            width: 1_600,
            height: 900,
        }
    );
    assert!(!edited.caption_track.visible);
    assert_changed_ids(&edited, &[&left_scene_id, &right_scene_id]);
    validate_timeline_semantics(&edited).expect("edited Timeline semantics");

    let sequential = apply_timeline_edits(ApplyTimelineEditsOptions {
        base_timeline_document: base.clone(),
        edits: vec![
            TimelineEditData::MoveSceneBoundary {
                left_scene_id: left_scene_id.clone(),
                right_scene_id: right_scene_id.clone(),
                boundary_ms: 55,
            },
            TimelineEditData::MoveSceneBoundary {
                left_scene_id: left_scene_id.clone(),
                right_scene_id: right_scene_id.clone(),
                boundary_ms: 50,
            },
        ],
        change_summary: "Apply boundary edits in sequence and deduplicate scene IDs.".to_owned(),
        new_run_id: "run_timeline_sequential".to_owned(),
        new_timeline_id: "timeline_sequential".to_owned(),
        created_at: "2026-07-18T09:01:00Z".to_owned(),
        base_artifact_id: "artifact_timeline_base".to_owned(),
    })
    .expect("apply sequential Timeline edits");
    assert_eq!(sequential.scene_track[0].end_ms, 50);
    assert_eq!(sequential.scene_track[1].start_ms, 50);
    assert_changed_ids(&sequential, &[&left_scene_id, &right_scene_id]);

    for (suffix, edit) in [
        (
            "safe_only",
            TimelineEditData::SetSafeArea {
                safe_area: TimelineSafeAreaData {
                    x: 80,
                    y: 45,
                    width: 1_760,
                    height: 990,
                },
            },
        ),
        (
            "captions_only",
            TimelineEditData::SetCaptionVisibility { visible: false },
        ),
    ] {
        let controls_only = apply_timeline_edits(ApplyTimelineEditsOptions {
            base_timeline_document: base.clone(),
            edits: vec![edit],
            change_summary: "Update one bounded presentation control.".to_owned(),
            new_run_id: format!("run_timeline_{suffix}"),
            new_timeline_id: format!("timeline_{suffix}"),
            created_at: "2026-07-18T09:02:00Z".to_owned(),
            base_artifact_id: "artifact_timeline_base".to_owned(),
        })
        .expect("apply presentation-only edit");
        assert!(controls_only.change_summary.changed_scene_ids.is_empty());
    }
}

#[test]
fn build_rejects_invalid_canvas_safe_area_identity_duration_and_trace_closure() {
    let mut invalid_canvas = build_options();
    invalid_canvas.canvas.width = 15;
    assert_build_code(invalid_canvas, TimelineDomainErrorCode::InvalidRequest);

    let mut zero_denominator = build_options();
    zero_denominator.canvas.frame_rate_denominator = 0;
    assert_build_code(zero_denominator, TimelineDomainErrorCode::InvalidRequest);

    let mut excessive_rational_rate = build_options();
    excessive_rational_rate.canvas.frame_rate_numerator = 241;
    excessive_rational_rate.canvas.frame_rate_denominator = 1;
    assert_build_code(excessive_rational_rate, TimelineDomainErrorCode::InvalidRequest);

    let mut overflowing_safe_area = build_options();
    overflowing_safe_area.safe_area.x = u32::MAX;
    overflowing_safe_area.safe_area.width = 2;
    assert_build_code(overflowing_safe_area, TimelineDomainErrorCode::InvalidRequest);

    let mut outside_canvas = build_options();
    outside_canvas.safe_area.x = 1_900;
    outside_canvas.safe_area.width = 100;
    assert_build_code(outside_canvas, TimelineDomainErrorCode::InvalidRequest);

    let mut wrong_project = build_options();
    wrong_project.audio_document.identity.project_id = Some("project_other".to_owned());
    assert_build_code(wrong_project, TimelineDomainErrorCode::InvalidInput);

    let mut wrong_run = build_options();
    wrong_run.audio_document.identity.run_id = Some("run_audio_other".to_owned());
    assert_build_code(wrong_run, TimelineDomainErrorCode::InvalidInput);

    let mut duration_drift = build_options();
    duration_drift.audio_document.duration_ms = Some(99);
    assert_build_code(duration_drift, TimelineDomainErrorCode::InvalidInput);

    let mut captions_audio_ref_drift = build_options();
    if let Some(reference) = captions_audio_ref_drift.captions_document.audio_input.as_mut() {
        reference.input.artifact_id = "artifact_audio_other".to_owned();
    }
    assert_build_code(captions_audio_ref_drift, TimelineDomainErrorCode::InvalidInput);

    let mut scene_captions_ref_drift = build_options();
    scene_captions_ref_drift.scene_plan_document.identity.input_refs[2]
        .input
        .content_hash = sha('9');
    assert_build_code(scene_captions_ref_drift, TimelineDomainErrorCode::InvalidInput);

    let mut duplicate_cue = build_options();
    duplicate_cue.captions_document.cues[1].cue_id = Some("cue_1".to_owned());
    assert_build_code(duplicate_cue, TimelineDomainErrorCode::InvalidInput);

    let mut out_of_audio_cue = build_options();
    out_of_audio_cue.captions_document.cues[3].end_ms = Some(101);
    assert_build_code(out_of_audio_cue, TimelineDomainErrorCode::InvalidInput);

    let mut missing_caption_ref = build_options();
    missing_caption_ref.captions_document.cues.pop();
    assert_build_code(missing_caption_ref, TimelineDomainErrorCode::InvalidInput);

    let mut trace_drift = build_options();
    trace_drift.scene_plan_document.scenes[0].claim_ids =
        TextListField::Items(strings(&["claim_other"]));
    assert_build_code(trace_drift, TimelineDomainErrorCode::InvalidInput);

    let mut duplicate_artifact = build_options();
    duplicate_artifact.captions_input.artifact_id = duplicate_artifact.audio_input.artifact_id.clone();
    assert_build_code(duplicate_artifact, TimelineDomainErrorCode::InvalidRequest);

    let mut wrong_stage = build_options();
    wrong_stage.scene_plan_input.stage_id = "scene".to_owned();
    assert_build_code(wrong_stage, TimelineDomainErrorCode::InvalidRequest);
}

#[test]
fn semantic_validator_rejects_track_holes_overlaps_ref_drift_and_unstable_ids() {
    let base = built_timeline();

    let mut duplicate_scene = base.clone();
    duplicate_scene.scene_track[1].scene_id = duplicate_scene.scene_track[0].scene_id.clone();
    assert_semantic_error(&duplicate_scene);

    let mut hole = base.clone();
    hole.scene_track[1].start_ms = 61;
    assert_semantic_error(&hole);

    let mut overlap = base.clone();
    overlap.scene_track[1].start_ms = 59;
    assert_semantic_error(&overlap);

    let mut wrong_start = base.clone();
    wrong_start.scene_track[0].start_ms = 1;
    assert_semantic_error(&wrong_start);

    let mut incomplete_duration = base.clone();
    incomplete_duration.scene_track[1].end_ms = 99;
    assert_semantic_error(&incomplete_duration);

    let mut audio_track_ref_drift = base.clone();
    audio_track_ref_drift.audio_track.audio_artifact_id = "artifact_audio_other".to_owned();
    assert_semantic_error(&audio_track_ref_drift);

    let mut audio_track_duration_drift = base.clone();
    audio_track_duration_drift.audio_track.end_ms = 99;
    assert_semantic_error(&audio_track_duration_drift);

    let mut captions_track_ref_drift = base.clone();
    captions_track_ref_drift.caption_track.captions_artifact_id = "artifact_captions_other".to_owned();
    assert_semantic_error(&captions_track_ref_drift);

    let mut no_caption_ids = base.clone();
    no_caption_ids.caption_track.cue_ids = Vec::new();
    assert_semantic_error(&no_caption_ids);

    let mut cross_project_input = base.clone();
    cross_project_input.input_refs[0].project_id = "project_other".to_owned();
    assert_semantic_error(&cross_project_input);

    let mut duplicate_stage = base.clone();
    duplicate_stage.input_refs[2].input.stage_id = "captions".to_owned();
    assert_semantic_error(&duplicate_stage);

    let mut unsafe_area = base.clone();
    unsafe_area.safe_area.x = 1_900;
    unsafe_area.safe_area.width = 100;
    assert_semantic_error(&unsafe_area);

    let mut overflowing_area = base.clone();
    overflowing_area.safe_area.x = 16_384;
    overflowing_area.safe_area.width = 16_384;
    assert_semantic_error(&overflowing_area);

    let mut excessive_rate = base.clone();
    excessive_rate.canvas.frame_rate_numerator = 241;
    excessive_rate.canvas.frame_rate_denominator = 1;
    assert_semantic_error(&excessive_rate);

    let mut changed = base.change_summary.changed_scene_ids.clone();
    assert!(changed.len() >= 2);
    changed.reverse();
    let mut unstable_changes = base.clone();
    unstable_changes.change_summary.changed_scene_ids = changed;
    assert_semantic_error(&unstable_changes);

    let mut unknown_change = base;
    unknown_change.change_summary.changed_scene_ids = strings(&["scene_unknown"]);
    assert_semantic_error(&unknown_change);
}

#[test]
fn edit_validation_rejects_illegal_nonadjacent_and_overflowing_sequences_atomically() {
    let base = three_scene_timeline();
    let original = base.clone();

    for edit in [
        ("scene_a", "scene_b", 0),
        ("scene_a", "scene_b", 30),
        ("scene_a", "scene_b", 60),
        ("scene_a", "scene_c", 45),
        ("scene_b", "scene_a", 45),
        ("scene_missing", "scene_b", 20),
    ]
    .map(|(left, right, boundary_ms)| TimelineEditData::MoveSceneBoundary {
        left_scene_id: left.to_owned(),
        right_scene_id: right.to_owned(),
        boundary_ms,
    }) {
        assert_eq!(apply_error(&base, vec![edit]), TimelineDomainErrorCode::InvalidEdit);
        assert_eq!(base, original);
    }

    assert_eq!(
        apply_error(
            &base,
            vec![TimelineEditData::SetSafeArea {
                safe_area: TimelineSafeAreaData {
                    x: u32::MAX,
                    y: 0,
                    width: 2,
                    height: 10,
                },
            }]
        ),
        TimelineDomainErrorCode::InvalidRequest
    );
    assert_eq!(base, original);

    assert_eq!(apply_error(&base, vec![]), TimelineDomainErrorCode::InvalidRequest);
    let too_many = (0..=1_000)
        .map(|index| TimelineEditData::SetCaptionVisibility {
            visible: index % 2 == 0,
        })
        .collect::<Vec<_>>();
    assert_eq!(apply_error(&base, too_many), TimelineDomainErrorCode::InvalidRequest);

    let error = apply_timeline_edits(ApplyTimelineEditsOptions {
        base_timeline_document: base.clone(),
        edits: vec![
            TimelineEditData::SetCaptionVisibility { visible: false },
            TimelineEditData::MoveSceneBoundary {
                left_scene_id: "scene_a".to_owned(),
                right_scene_id: "scene_b".to_owned(),
                boundary_ms: 30,
            },
        ],
        change_summary: "A later invalid edit rejects the entire sequence.".to_owned(),
        new_run_id: "run_timeline_atomic".to_owned(),
        new_timeline_id: "timeline_atomic".to_owned(),
        created_at: "2026-07-18T09:10:00Z".to_owned(),
        base_artifact_id: "artifact_timeline_base".to_owned(),
    })
    .expect_err("late invalid edit must reject candidate");
    assert_eq!(error.code, TimelineDomainErrorCode::InvalidEdit);
    assert_eq!(base, original, "failed sequence cannot mutate base");

    let mut invalid_controls = edit_options(
        &base,
        vec![TimelineEditData::SetCaptionVisibility { visible: false }],
    );
    invalid_controls.change_summary = "bad\nsummary".to_owned();
    assert_eq!(
        apply_timeline_edits(invalid_controls)
            .expect_err("control character in summary")
            .code,
        TimelineDomainErrorCode::InvalidRequest
    );

    let mut same_run = edit_options(
        &base,
        vec![TimelineEditData::SetCaptionVisibility { visible: false }],
    );
    same_run.new_run_id = base.run_id.clone();
    assert_eq!(
        apply_timeline_edits(same_run)
            .expect_err("run identity must advance")
            .code,
        TimelineDomainErrorCode::InvalidRequest
    );

    let mut same_timeline = edit_options(
        &base,
        vec![TimelineEditData::SetCaptionVisibility { visible: false }],
    );
    same_timeline.new_timeline_id = base.timeline_id.clone();
    assert_eq!(
        apply_timeline_edits(same_timeline)
            .expect_err("Timeline identity must advance")
            .code,
        TimelineDomainErrorCode::InvalidRequest
    );
}

#[test]
fn generation_builds_the_timeline_with_its_fingerprint_as_seed() {
    let fixture = build_options();
    let request = GenerateTimelineOptions {
        project_path: "/projects/timeline".to_owned(),
        expected_project_id: PROJECT_ID.to_owned(),
        run_id: "run_timeline_base".to_owned(),
        audio_input: fixture.audio_input.clone(),
        captions_input: fixture.captions_input.clone(),
        scene_plan_input: fixture.scene_plan_input.clone(),
        canvas: fixture.canvas,
        safe_area: fixture.safe_area,
        idempotency_key: "generate-timeline-001".to_owned(),
    };
    let fingerprint = generation_request_fingerprint(&request);
    let (state, action) = start_timeline_generation(request.clone()).expect("valid request");
    assert_eq!(action, TimelineGenerationAction::OpenProject);
    assert_eq!(state.fingerprint, fingerprint);
    let (state, action) = timeline_generation_step(state, TimelineGenerationEvent::ProjectOpened { project_id: PROJECT_ID.to_owned() })
        .expect("same project");
    assert_eq!(action, TimelineGenerationAction::LoadReceipt);
    let (state, action) = timeline_generation_step(state, TimelineGenerationEvent::ReceiptLoaded { receipt: None }).expect("no receipt");
    assert_eq!(action, TimelineGenerationAction::ApproveInputs);
    let ids = vec![
        Some(fixture.audio_input.artifact_id.clone()),
        Some(fixture.captions_input.artifact_id.clone()),
        Some(fixture.scene_plan_input.artifact_id.clone()),
    ];
    let refused = timeline_generation_step(state.clone(), TimelineGenerationEvent::InputsApproved { artifact_ids: ids[..2].to_vec() })
        .expect_err("two inputs approved");
    assert_eq!(refused.message, "批准输入闭包返回了不一致的 Audio/Captions/Scene Plan Artifact。");
    let (state, action) = timeline_generation_step(state, TimelineGenerationEvent::InputsApproved { artifact_ids: ids })
        .expect("approved");
    assert_eq!(action, TimelineGenerationAction::LoadSources);
    let (state, action) = timeline_generation_step(
        state,
        TimelineGenerationEvent::SourcesLoaded {
            audio_document: fixture.audio_document.clone(),
            captions_document: fixture.captions_document.clone(),
            scene_plan_document: fixture.scene_plan_document.clone(),
            created_at: fixture.created_at.clone(),
        },
    )
    .expect("built");
    assert_eq!(action, TimelineGenerationAction::StoreDocument);
    let generated = state.document.clone().expect("document");

    let mut direct = fixture.clone();
    direct.stable_seed = fingerprint.clone();
    direct.config_snapshot = TIMELINE_CONFIG_SNAPSHOT.to_owned();
    direct.schema_version = MEDIA_SCHEMA_VERSION.to_owned();
    assert_eq!(generated, build_timeline_document(direct).expect("direct build"));
    assert_ne!(generated.timeline_id, built_timeline().timeline_id);

    let (state, action) = timeline_generation_step(
        state,
        TimelineGenerationEvent::DocumentStored { artifact_id: "artifact_timeline".to_owned(), content_hash: sha('f'), persisted_matches: true },
    )
    .expect("stored");
    assert_eq!(action, TimelineGenerationAction::CommitReceipt);
    let (state, action) = timeline_generation_step(state, TimelineGenerationEvent::ReceiptCommitted { created: true }).expect("committed");
    assert_eq!(action, TimelineGenerationAction::Finish);
    assert_eq!(state.stage, TimelineGenerationStage::Done);
    assert_eq!(state.artifact_id, "artifact_timeline");

    let mut other = request;
    other.canvas.width = 1_280;
    other.canvas.height = 720;
    assert_ne!(generation_request_fingerprint(&other), fingerprint);
}

fn save_request(edits: Vec<TimelineEditData>) -> SaveTimelineOptions {
    SaveTimelineOptions {
        project_path: "/projects/timeline".to_owned(),
        expected_project_id: PROJECT_ID.to_owned(),
        run_id: "run_timeline_save_001".to_owned(),
        base_artifact_id: "artifact_timeline_base".to_owned(),
        edits,
        change_summary: "Move the first boundary.".to_owned(),
        idempotency_key: "save-timeline-001".to_owned(),
    }
}

fn save_step(state: TimelineSaveState, event: TimelineSaveEvent, expected: TimelineSaveAction) -> TimelineSaveState {
    let (next, action) = timeline_save_step(state, event).expect("accepted save step");
    assert_eq!(action, expected);
    next
}

#[test]
fn timeline_save_tries_the_edits_then_dates_them_by_the_run() {
    let base = built_timeline();
    let edits = vec![TimelineEditData::MoveSceneBoundary {
        left_scene_id: base.scene_track[0].scene_id.clone(),
        right_scene_id: base.scene_track[1].scene_id.clone(),
        boundary_ms: 55,
    }];
    let request = save_request(edits.clone());
    let (state, action) = start_timeline_save(request.clone()).expect("valid save");
    assert_eq!(action, TimelineSaveAction::OpenProject);
    let state = save_step(state, TimelineSaveEvent::ProjectOpened { project_id: PROJECT_ID.to_owned() }, TimelineSaveAction::LoadBase);
    let base_hash = sha('9');
    let state = save_step(
        state,
        TimelineSaveEvent::BaseLoaded { document: base.clone(), content_hash: base_hash.clone() },
        TimelineSaveAction::LoadReceipt,
    );
    let (fingerprint, timeline_id) = timeline_save_identity(&request, &base_hash);
    assert_eq!(state.fingerprint, fingerprint);
    assert_eq!(state.timeline_id, timeline_id);
    let state = save_step(state, TimelineSaveEvent::ReceiptLoaded { receipt: None }, TimelineSaveAction::PrepareRun);
    let dry = state.document.clone().expect("dry run");
    assert_eq!(dry.created_at, DRY_RUN_CREATED_AT);
    let state = save_step(
        state,
        TimelineSaveEvent::RunPrepared { created_at: "2026-07-18T11:00:00Z".to_owned() },
        TimelineSaveAction::StoreDocument,
    );
    let edited = state.document.clone().expect("edited");
    let direct = apply_timeline_edits(ApplyTimelineEditsOptions {
        base_timeline_document: base.clone(),
        edits,
        change_summary: request.change_summary.clone(),
        new_run_id: request.run_id.clone(),
        new_timeline_id: timeline_id,
        created_at: "2026-07-18T11:00:00Z".to_owned(),
        base_artifact_id: request.base_artifact_id.clone(),
    })
    .expect("direct edit");
    assert_eq!(edited, direct);
    let state = save_step(
        state,
        TimelineSaveEvent::DocumentStored { artifact_id: "artifact_timeline_edit".to_owned(), content_hash: sha('8'), persisted_matches: true },
        TimelineSaveAction::CommitReceipt,
    );
    let state = save_step(state, TimelineSaveEvent::ReceiptCommitted { created: true }, TimelineSaveAction::Finish);
    assert_eq!(state.stage, TimelineSaveStage::Done);
}

#[test]
fn timeline_save_refuses_bad_edits_before_its_run_and_replays_its_receipt() {
    let base = built_timeline();
    let bad = vec![TimelineEditData::MoveSceneBoundary {
        left_scene_id: "scene_missing".to_owned(),
        right_scene_id: base.scene_track[1].scene_id.clone(),
        boundary_ms: 55,
    }];
    let (state, _) = start_timeline_save(save_request(bad)).expect("valid save");
    let state = save_step(state, TimelineSaveEvent::ProjectOpened { project_id: PROJECT_ID.to_owned() }, TimelineSaveAction::LoadBase);
    let state = save_step(state, TimelineSaveEvent::BaseLoaded { document: base.clone(), content_hash: sha('9') }, TimelineSaveAction::LoadReceipt);
    let fingerprint = state.fingerprint.clone();
    let receipt = MediaReceiptFields {
        operation: Some("save_timeline".to_owned()),
        run_id: Some("run_timeline_save_001".to_owned()),
        base_artifact_id: Some("artifact_timeline_base".to_owned()),
        base_content_hash: Some(sha('9')),
        request_fingerprint: Some(fingerprint),
    };
    let replay = save_step(
        timeline_save_step(
            start_timeline_save(save_request(vec![TimelineEditData::SetCaptionVisibility { visible: false }])).expect("valid").0,
            TimelineSaveEvent::ProjectOpened { project_id: PROJECT_ID.to_owned() },
        )
        .expect("project")
        .0,
        TimelineSaveEvent::BaseLoaded { document: base.clone(), content_hash: sha('9') },
        TimelineSaveAction::LoadReceipt,
    );
    let error = match timeline_save_step(replay, TimelineSaveEvent::ReceiptLoaded { receipt: Some(receipt.clone()) }) {
        Err(error) => error,
        Ok(_) => panic!("other edits must be refused"),
    };
    assert_eq!(error.code, MediaErrorCode::IdempotencyConflict);
    assert_eq!(error.message, "幂等键已绑定到不同的 Timeline 保存语义。");
    let same = save_step(
        {
            let (state, _) = start_timeline_save(save_request(vec![TimelineEditData::MoveSceneBoundary {
                left_scene_id: "scene_missing".to_owned(),
                right_scene_id: base.scene_track[1].scene_id.clone(),
                boundary_ms: 55,
            }]))
            .expect("valid");
            let state = save_step(state, TimelineSaveEvent::ProjectOpened { project_id: PROJECT_ID.to_owned() }, TimelineSaveAction::LoadBase);
            save_step(state, TimelineSaveEvent::BaseLoaded { document: base.clone(), content_hash: sha('9') }, TimelineSaveAction::LoadReceipt)
        },
        TimelineSaveEvent::ReceiptLoaded { receipt: Some(receipt) },
        TimelineSaveAction::PrepareRun,
    );
    assert!(same.receipt_exists);
    let same = save_step(same, TimelineSaveEvent::RunPrepared { created_at: "2026-07-18T11:00:00Z".to_owned() }, TimelineSaveAction::ReplayReceipt);
    assert_eq!(same.stage, TimelineSaveStage::Done);

    let error = match timeline_save_step(state, TimelineSaveEvent::ReceiptLoaded { receipt: None }) {
        Err(error) => error,
        Ok(_) => panic!("an unknown scene must be refused"),
    };
    assert_eq!(error.operation, MediaOperation::SaveTimeline);
}
