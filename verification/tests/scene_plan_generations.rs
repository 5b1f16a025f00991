use narracut_core::digest::stable_scene_plan_receipt_id;
use narracut_core::media_error::MediaErrorCode;
use narracut_core::media_receipts::MediaReceiptFields;
use narracut_core::media_types::{FrozenArtifactInputData, GenerateScenePlanOptions};
use narracut_core::scene_plan_generation::{
    scene_plan_generation_step, scene_plan_request, scene_plan_request_fingerprint,
    start_scene_plan_generation, ScenePlanGenerationAction, ScenePlanGenerationEvent,
    ScenePlanGenerationStage, ScenePlanGenerationState,
};
use narracut_core::scene_plan_sources::{
    scene_plan_source_context, AudioArtifactFields, CaptionsAudioInput, ScenePlanAudioFields,
    ScenePlanCaptionsFields, ScenePlanSources,
};
use narracut_core::storage_types::{ArtifactVerificationResultData, ArtifactVerificationStatusData};
use serde_json::Value;

fn input(stage_id: &str) -> FrozenArtifactInputData {
    FrozenArtifactInputData {
        stage_id: stage_id.to_owned(),
        run_id: format!("run_{stage_id}"),
        artifact_id: format!("artifact_{stage_id}"),
        content_hash: format!("sha256:{}", "a".repeat(64)),
        review_record_id: format!("review_{stage_id}"),
        claim_ids: vec!["claim_1".to_owned()],
        evidence_refs: vec!["evidence_1".to_owned()],
    }
}

fn options() -> GenerateScenePlanOptions {
    GenerateScenePlanOptions {
        project_path: "/projects/demo".to_owned(),
        expected_project_id: "project_001".to_owned(),
        run_id: "run_scene_plan_001".to_owned(),
        research_input: input("research"),
        script_input: input("script"),
        captions_input: input("captions"),
        idempotency_key: "generate-scene-plan-001".to_owned(),
    }
}

fn object(entries: Vec<(&str, Value)>) -> Value {
    let mut map = serde_json::Map::new();
    for (key, value) in entries {
        map.insert(key.to_owned(), value);
    }
    Value::Object(map)
}

fn input_json(input: &FrozenArtifactInputData) -> Value {
    let strings = |values: &[String]| Value::Array(values.iter().map(|value| Value::String(value.clone())).collect());
    object(vec![
        ("stageId", Value::String(input.stage_id.clone())),
        ("runId", Value::String(input.run_id.clone())),
        ("artifactId", Value::String(input.artifact_id.clone())),
        ("contentHash", Value::String(input.content_hash.clone())),
        ("reviewRecordId", Value::String(input.review_record_id.clone())),
        ("claimIds", strings(&input.claim_ids)),
        ("evidenceRefs", strings(&input.evidence_refs)),
    ])
}

fn verification(input: &FrozenArtifactInputData) -> ArtifactVerificationResultData {
    ArtifactVerificationResultData {
        api_version: "1.0.0".to_owned(),
        owner_project_id: "project_001".to_owned(),
        artifact_id: input.artifact_id.clone(),
        status: ArtifactVerificationStatusData::Verified,
        expected_content_hash: input.content_hash.clone(),
        actual_content_hash: Some(input.content_hash.clone()),
        expected_byte_length: 10,
        actual_byte_length: Some(10),
    }
}

fn sources() -> ScenePlanSources {
    let request = options();
    let audio = input("audio");
    ScenePlanSources {
        research_verification: verification(&request.research_input),
        script_verification: verification(&request.script_input),
        captions_verification: verification(&request.captions_input),
        captions: ScenePlanCaptionsFields {
            document_type: Some("captions_media".to_owned()),
            project_id: Some("project_001".to_owned()),
            run_id: Some("run_captions".to_owned()),
            input_refs: vec![audio.clone(), request.script_input.clone()],
            audio_input: CaptionsAudioInput::Present {
                project_id: Some("project_001".to_owned()),
                input: Some(audio.clone()),
            },
        },
        audio_artifact: AudioArtifactFields {
            owner_project_id: "project_001".to_owned(),
            stage_id: Some("audio".to_owned()),
            run_id: Some("run_audio".to_owned()),
            kind: Some("voice_audio".to_owned()),
            content_hash: Some(audio.content_hash.clone()),
        },
        audio_verification: verification(&audio),
        audio_document: ScenePlanAudioFields {
            document_type: Some("audio_media".to_owned()),
            project_id: Some("project_001".to_owned()),
            run_id: Some("run_audio".to_owned()),
            input_refs: vec![request.script_input.clone()],
            duration_ms: Some(12_000),
        },
    }
}

fn step(state: ScenePlanGenerationState, event: ScenePlanGenerationEvent, expected: ScenePlanGenerationAction) -> ScenePlanGenerationState {
    let (next, action) = scene_plan_generation_step(state, event).expect("accepted step");
    assert_eq!(action, expected);
    next
}

#[test]
fn scene_plan_request_is_canonical_json_of_inputs_and_configuration() {
    let request = options();
    let config = object(vec![
        ("algorithmId", Value::String("narracut.scene-plan.caption-cue-grouping".to_owned())),
        ("algorithmVersion", Value::String("1.0.0".to_owned())),
        ("cueGrouping", object(vec![("maxCuesPerScene", Value::from(3))])),
        ("silenceBoundaryPolicy", Value::String("midpoint_between_adjacent_scene_cues".to_owned())),
        ("titlePolicy", Value::String("first_cue_safe_excerpt_v1".to_owned())),
        ("traceabilityPolicy", Value::String("ordered_union_from_assigned_cues_v1".to_owned())),
    ]);
    let expected = object(vec![
        ("version", Value::from(1)),
        ("operation", Value::String("generate_scene_plan".to_owned())),
        ("projectId", Value::String(request.expected_project_id.clone())),
        ("runId", Value::String(request.run_id.clone())),
        ("researchInput", input_json(&request.research_input)),
        ("scriptInput", input_json(&request.script_input)),
        ("captionsInput", input_json(&request.captions_input)),
        ("configSnapshot", config),
    ]);
    assert_eq!(scene_plan_request(&request), serde_json::to_string(&expected).expect("json"));
}

#[test]
fn scene_plan_generation_runs_and_replays_by_receipt() {
    let (state, action) = start_scene_plan_generation(options()).expect("valid");
    assert_eq!(action, ScenePlanGenerationAction::OpenProject);
    assert_eq!(state.fingerprint, scene_plan_request_fingerprint(&options()));
    assert_eq!(state.receipt_id, stable_scene_plan_receipt_id("project_001", "generate-scene-plan-001"));
    let state = step(state, ScenePlanGenerationEvent::ProjectOpened { project_id: "project_001".to_owned() }, ScenePlanGenerationAction::LoadReceipt);
    let ids = vec![
        Some("artifact_research".to_owned()),
        Some("artifact_script".to_owned()),
        Some("artifact_captions".to_owned()),
    ];

    let fresh = step(state.clone(), ScenePlanGenerationEvent::ReceiptLoaded { receipt: None }, ScenePlanGenerationAction::ApproveInputs);
    let fresh = step(fresh, ScenePlanGenerationEvent::InputsApproved { artifact_ids: ids.clone() }, ScenePlanGenerationAction::LoadSources);
    let fresh = step(fresh, ScenePlanGenerationEvent::SourcesLoaded { sources: sources() }, ScenePlanGenerationAction::StoreDocument);
    let context = fresh.sources.clone().expect("sources checked");
    assert_eq!(context.audio_input, input("audio"));
    assert_eq!(context.audio_duration_ms, 12_000);
    let fresh = step(
        fresh,
        ScenePlanGenerationEvent::DocumentStored { artifact_id: "artifact_plan".to_owned(), content_hash: "sha256:p".to_owned(), persisted_matches: true },
        ScenePlanGenerationAction::CommitReceipt,
    );
    let fresh = step(fresh, ScenePlanGenerationEvent::ReceiptCommitted { created: true }, ScenePlanGenerationAction::Finish);
    assert_eq!(fresh.stage, ScenePlanGenerationStage::Done);
    assert_eq!(fresh.artifact_id, "artifact_plan");

    let stored = MediaReceiptFields {
        operation: Some("generate_scene_plan".to_owned()),
        run_id: Some("run_scene_plan_001".to_owned()),
        base_artifact_id: None,
        base_content_hash: None,
        request_fingerprint: Some(state.fingerprint.clone()),
    };
    let replay = step(state.clone(), ScenePlanGenerationEvent::ReceiptLoaded { receipt: Some(stored.clone()) }, ScenePlanGenerationAction::ApproveInputs);
    assert!(replay.receipt_exists);
    let replay = step(replay, ScenePlanGenerationEvent::InputsApproved { artifact_ids: ids }, ScenePlanGenerationAction::LoadSources);
    let replay = step(replay, ScenePlanGenerationEvent::SourcesLoaded { sources: sources() }, ScenePlanGenerationAction::ReplayReceipt);
    assert_eq!(replay.stage, ScenePlanGenerationStage::Done);

    let mut other = stored;
    other.request_fingerprint = Some("sha256:other".to_owned());
    let error = scene_plan_generation_step(state, ScenePlanGenerationEvent::ReceiptLoaded { receipt: Some(other) }).expect_err("conflict");
    assert_eq!(error.code, MediaErrorCode::IdempotencyConflict);
    assert_eq!(error.message, "幂等键已绑定到不同的 Scene Plan 生成语义。");
}

#[test]
fn scene_plan_sources_give_the_declared_audio_and_its_duration() {
    let context = scene_plan_source_context(&options(), &sources()).expect("sources accepted");
    assert_eq!(context.audio_input, input("audio"));
    assert_eq!(context.audio_duration_ms, 12_000);
}

#[test]
fn scene_plan_sources_refuse_in_the_storage_order() {
    let request = options();

    let mut unverified = sources();
    unverified.script_verification.status = ArtifactVerificationStatusData::HashMismatch;
    unverified.captions.document_type = None;
    let error = scene_plan_source_context(&request, &unverified).expect_err("script content");
    assert_eq!(error.code, MediaErrorCode::ArtifactVerificationFailed);
    assert_eq!(error.message, "Scene Plan 冻结输入实体未通过内容校验。");
    assert_eq!(error.project_id.as_deref(), Some("project_001"));
    assert_eq!(error.stage_id.as_deref(), Some("script"));
    assert_eq!(error.run_id.as_deref(), Some("run_script"));
    assert_eq!(error.artifact_id.as_deref(), Some("artifact_script"));

    let mut foreign_owner = sources();
    foreign_owner.research_verification.owner_project_id = "project_002".to_owned();
    let error = scene_plan_source_context(&request, &foreign_owner).expect_err("owner");
    assert_eq!(error.stage_id.as_deref(), Some("research"));

    let mut no_script = sources();
    no_script.captions.input_refs = vec![input("audio")];
    let error = scene_plan_source_context(&request, &no_script).expect_err("script closure");
    assert_eq!(error.code, MediaErrorCode::InputReferenceMismatch);
    assert_eq!(error.message, "CaptionsMediaDocument 的项目、运行或 Script 闭包与冻结输入不一致。");
    assert_eq!(error.project_id, None);

    let mut missing = sources();
    missing.captions.audio_input = CaptionsAudioInput::Missing;
    let error = scene_plan_source_context(&request, &missing).expect_err("missing audio");
    assert_eq!(error.message, "CaptionsMediaDocument 缺少 Audio 冻结输入。");

    let mut foreign = sources();
    foreign.captions.audio_input = CaptionsAudioInput::Present { project_id: Some("project_002".to_owned()), input: Some(input("audio")) };
    let error = scene_plan_source_context(&request, &foreign).expect_err("foreign audio");
    assert_eq!(error.code, MediaErrorCode::CrossProjectReference);
    assert_eq!(error.message, "Captions Audio 输入属于其他项目。");

    let mut shapeless = sources();
    shapeless.captions.audio_input = CaptionsAudioInput::Present { project_id: Some("project_001".to_owned()), input: None };
    let error = scene_plan_source_context(&request, &shapeless).expect_err("shapeless audio");
    assert_eq!(error.message, "媒体文档中的冻结输入格式无效。");

    let mut wrong_stage = sources();
    wrong_stage.captions.audio_input = CaptionsAudioInput::Present { project_id: Some("project_001".to_owned()), input: Some(input("captions")) };
    let error = scene_plan_source_context(&request, &wrong_stage).expect_err("not audio");
    assert_eq!(error.code, MediaErrorCode::InvalidRequest);
    assert_eq!(error.message, "Audio 冻结输入引用格式无效。");

    let mut unrecorded = sources();
    unrecorded.captions.input_refs = vec![request.script_input.clone()];
    let error = scene_plan_source_context(&request, &unrecorded).expect_err("unrecorded audio");
    assert_eq!(error.message, "Captions audioInput 与 inputRefs 不一致。");

    let mut not_voice = sources();
    not_voice.audio_artifact.kind = Some("music".to_owned());
    let error = scene_plan_source_context(&request, &not_voice).expect_err("metadata");
    assert_eq!(error.message, "Captions Audio Artifact 元数据闭包不一致。");

    let mut corrupt = sources();
    corrupt.audio_verification.status = ArtifactVerificationStatusData::MissingContent;
    let error = scene_plan_source_context(&request, &corrupt).expect_err("audio content");
    assert_eq!(error.code, MediaErrorCode::ArtifactVerificationFailed);
    assert_eq!(error.message, "Captions Audio Artifact 实体未通过内容校验。");
    assert_eq!(error.stage_id.as_deref(), Some("audio"));
    assert_eq!(error.artifact_id.as_deref(), Some("artifact_audio"));

    for duration in [None, Some(0), Some(86_400_001)] {
        let mut bad = sources();
        bad.audio_document.duration_ms = duration;
        let error = scene_plan_source_context(&request, &bad).expect_err("duration");
        assert_eq!(error.message, "AudioMediaDocument 时长无效。");
    }
    let mut longest = sources();
    longest.audio_document.duration_ms = Some(86_400_000);
    assert_eq!(scene_plan_source_context(&request, &longest).expect("a day").audio_duration_ms, 86_400_000);

    let mut other_run = sources();
    other_run.audio_document.run_id = Some("run_other".to_owned());
    let error = scene_plan_source_context(&request, &other_run).expect_err("audio document");
    assert_eq!(error.message, "AudioMediaDocument 的项目、运行或 Script 闭包不一致。");
}

#[test]
fn scene_plan_generation_stops_at_refused_sources() {
    let (state, _) = start_scene_plan_generation(options()).expect("valid");
    let state = step(state, ScenePlanGenerationEvent::ProjectOpened { project_id: "project_001".to_owned() }, ScenePlanGenerationAction::LoadReceipt);
    let state = step(state, ScenePlanGenerationEvent::ReceiptLoaded { receipt: None }, ScenePlanGenerationAction::ApproveInputs);
    let ids = vec![
        Some("artifact_research".to_owned()),
        Some("artifact_script".to_owned()),
        Some("artifact_captions".to_owned()),
    ];
    let state = step(state, ScenePlanGenerationEvent::InputsApproved { artifact_ids: ids }, ScenePlanGenerationAction::LoadSources);
    let mut refused = sources();
    refused.captions_verification.expected_content_hash = format!("sha256:{}", "b".repeat(64));
    let error = scene_plan_generation_step(state, ScenePlanGenerationEvent::SourcesLoaded { sources: refused }).expect_err("captions content");
    assert_eq!(error.code, MediaErrorCode::ArtifactVerificationFailed);
    assert_eq!(error.stage_id.as_deref(), Some("captions"));
}
