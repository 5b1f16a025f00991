use narracut_core::base_inputs::{
    base_document_frozen_inputs, document_input_artifact_ids, BaseDocumentKind, DocumentArtifactRef,
};
use narracut_core::caption_script::{ScriptProvenanceEntry, ScriptProvenanceField};
use narracut_core::caption_trace::CaptionProvenancePair;
use narracut_core::media_error::{MediaErrorCode, MediaOperation};
use narracut_core::media_read::InputRefRecord;
use narracut_core::media_requests::{
    validate_audio_options, validate_captions_options, ImportAudioOptions, ImportCaptionsOptions,
    PcmWavParseLimits, SrtParseLimits,
};
use narracut_core::media_types::{FrozenArtifactInputData, MediaRightsData, VoiceAuthorizationApplicabilityData};
use narracut_core::provenance_union::exact_artifact_provenance_union;

const PROJECT: &str = "project_001";

fn sha(character: char) -> String {
    format!("sha256:{}", character.to_string().repeat(64))
}

fn input(stage_id: &str, artifact: &str) -> FrozenArtifactInputData {
    FrozenArtifactInputData {
        stage_id: stage_id.to_owned(),
        run_id: format!("run_{stage_id}"),
        artifact_id: format!("artifact_{artifact}"),
        content_hash: sha('a'),
        review_record_id: format!("review_{stage_id}"),
        claim_ids: vec!["claim_1".to_owned()],
        evidence_refs: vec!["evidence_1".to_owned()],
    }
}

fn rights() -> MediaRightsData {
    MediaRightsData {
        ownership: "self_recorded".to_owned(),
        author: "Narrator".to_owned(),
        rights_statement: "Recorded for this project.".to_owned(),
        license_id: "all-rights-reserved".to_owned(),
        attribution_text: String::new(),
        authorization_records: Vec::new(),
        voice_authorization: VoiceAuthorizationApplicabilityData {
            applicability: "not_voice_clone".to_owned(),
            reason: "Human narration.".to_owned(),
        },
    }
}

fn audio_options() -> ImportAudioOptions {
    ImportAudioOptions {
        project_path: "/projects/demo".to_owned(),
        expected_project_id: PROJECT.to_owned(),
        run_id: "run_audio_001".to_owned(),
        source_path: "/media/voice.wav".to_owned(),
        expected_source_content_hash: None,
        script_input: input("script", "script_001"),
        rights: rights(),
        limits: PcmWavParseLimits { max_bytes: 1024 },
        config_snapshot: "{\"mode\":\"standard\"}".to_owned(),
        idempotency_key: "import-audio-001".to_owned(),
    }
}

fn captions_options() -> ImportCaptionsOptions {
    ImportCaptionsOptions {
        project_path: "/projects/demo".to_owned(),
        expected_project_id: PROJECT.to_owned(),
        run_id: "run_captions_001".to_owned(),
        source_path: "/media/captions.srt".to_owned(),
        expected_source_content_hash: Some(sha('b')),
        script_input: input("script", "script_001"),
        audio_input: input("audio", "audio_001"),
        audio_duration_ms: 60_000,
        rights: rights(),
        limits: SrtParseLimits {
            max_bytes: 1024,
            max_cue_count: 100,
            max_cue_text_bytes: 200,
        },
        config_snapshot: "{\"mode\":\"standard\"}".to_owned(),
        idempotency_key: "import-captions-001".to_owned(),
    }
}

#[test]
fn audio_import_requests_are_checked_in_order() {
    assert_eq!(
        validate_audio_options(&audio_options(), true, Some("voice.wav")).ok(),
        Some("voice.wav".to_owned())
    );
    let error = validate_audio_options(&audio_options(), false, Some("voice.wav")).expect_err("relative");
    assert_eq!(error.code, MediaErrorCode::InvalidSourceName);
    let error = validate_audio_options(&audio_options(), true, Some("CON.wav")).expect_err("device name");
    assert_eq!(error.code, MediaErrorCode::InvalidSourceName);
    let mut options = audio_options();
    options.rights.voice_authorization.applicability = "voice_clone".to_owned();
    let error = validate_audio_options(&options, false, None).expect_err("voice clone");
    assert_eq!(error.code, MediaErrorCode::VoiceCloneNotAllowed);
    let mut options = audio_options();
    options.limits.max_bytes = 0;
    let error = validate_audio_options(&options, true, Some("voice.wav")).expect_err("no bytes");
    assert_eq!(error.code, MediaErrorCode::InvalidRequest);
    assert_eq!(error.message, "Audio 请求标识、配置或资源上限无效。");
    let mut options = audio_options();
    options.config_snapshot = "[]".to_owned();
    assert!(validate_audio_options(&options, true, Some("voice.wav")).is_err());
    let mut options = audio_options();
    options.expected_source_content_hash = Some("sha256:ABC".to_owned());
    let error = validate_audio_options(&options, true, Some("voice.wav")).expect_err("bad hash");
    assert_eq!(error.message, "源内容哈希必须使用 sha256:<64位小写十六进制>。");
    let mut options = audio_options();
    options.script_input.stage_id = "audio".to_owned();
    let error = validate_audio_options(&options, true, Some("voice.wav")).expect_err("wrong stage");
    assert_eq!(error.message, "Script 冻结输入引用格式无效。");
}

#[test]
fn caption_import_requests_need_distinct_inputs_and_bounded_limits() {
    assert!(validate_captions_options(&captions_options(), true, Some("captions.srt")).is_ok());
    let mut options = captions_options();
    options.audio_duration_ms = 86_400_001;
    let error = validate_captions_options(&options, true, Some("captions.srt")).expect_err("too long");
    assert_eq!(error.message, "Captions 请求标识、配置、时长或资源上限无效。");
    let mut options = captions_options();
    options.limits.max_cue_count = 10_001;
    assert!(validate_captions_options(&options, true, Some("captions.srt")).is_err());
    let mut options = captions_options();
    options.audio_input.artifact_id = options.script_input.artifact_id.clone();
    let error = validate_captions_options(&options, true, Some("captions.srt")).expect_err("same artifact");
    assert_eq!(error.message, "Captions 的 Script 与 Audio 输入必须引用不同 Artifact。");
}

fn record(project: &str, input: FrozenArtifactInputData) -> InputRefRecord {
    InputRefRecord {
        project_id: Some(project.to_owned()),
        input: Some(input),
    }
}

#[test]
fn base_timeline_names_exactly_its_three_stages() {
    let records = vec![
        record(PROJECT, input("scene_plan", "plan")),
        record(PROJECT, input("audio", "audio")),
        record(PROJECT, input("captions", "captions")),
    ];
    let inputs = base_document_frozen_inputs(BaseDocumentKind::Timeline, &records, PROJECT, MediaOperation::SaveTimeline)
        .expect("three stages");
    assert_eq!(inputs.len(), 3);

    let repeated = vec![
        record(PROJECT, input("audio", "plan")),
        record(PROJECT, input("audio", "audio")),
        record(PROJECT, input("captions", "captions")),
    ];
    let error = base_document_frozen_inputs(BaseDocumentKind::Timeline, &repeated, PROJECT, MediaOperation::SaveTimeline)
        .expect_err("repeated stage");
    assert_eq!(error.message, "基础 Timeline inputRefs 的阶段、身份、哈希或追溯字段无效。");

    let error = base_document_frozen_inputs(BaseDocumentKind::Timeline, &records[..2], PROJECT, MediaOperation::SaveTimeline)
        .expect_err("two stages");
    assert_eq!(error.code, MediaErrorCode::InputReferenceMismatch);

    let foreign = vec![
        record(PROJECT, input("scene_plan", "plan")),
        record("project_other", input("audio", "audio")),
        record(PROJECT, input("captions", "captions")),
    ];
    let error = base_document_frozen_inputs(BaseDocumentKind::Timeline, &foreign, PROJECT, MediaOperation::SaveTimeline)
        .expect_err("other project");
    assert_eq!(error.code, MediaErrorCode::CrossProjectReference);
}

#[test]
fn base_scene_plan_inputs_are_bounded_and_distinct() {
    let records = vec![
        record(PROJECT, input("research", "research")),
        record(PROJECT, input("script", "script")),
        record(PROJECT, input("captions", "captions")),
        record(PROJECT, input("captions", "captions_2")),
    ];
    assert!(base_document_frozen_inputs(BaseDocumentKind::ScenePlan, &records, PROJECT, MediaOperation::SaveScenePlan).is_ok());
    let error = base_document_frozen_inputs(BaseDocumentKind::ScenePlan, &[], PROJECT, MediaOperation::SaveScenePlan)
        .expect_err("no inputs");
    assert_eq!(error.message, "基础 Scene Plan inputRefs 缺失或超过上限。");
    let missing = vec![InputRefRecord {
        project_id: Some(PROJECT.to_owned()),
        input: None,
    }];
    let error = base_document_frozen_inputs(BaseDocumentKind::ScenePlan, &missing, PROJECT, MediaOperation::SaveScenePlan)
        .expect_err("malformed input");
    assert_eq!(error.message, "媒体文档中的冻结输入格式无效。");
}

#[test]
fn upstream_document_artifacts_are_valid_local_and_distinct() {
    let reference = |project: &str, artifact: &str| DocumentArtifactRef {
        project_id: Some(project.to_owned()),
        artifact_id: Some(artifact.to_owned()),
    };
    assert_eq!(
        document_input_artifact_ids(
            &[reference(PROJECT, "artifact_a"), reference(PROJECT, "artifact_b")],
            PROJECT,
            MediaOperation::GenerateTimeline
        )
        .ok(),
        Some(vec!["artifact_a".to_owned(), "artifact_b".to_owned()])
    );
    let error = document_input_artifact_ids(
        &[reference(PROJECT, "artifact_a"), reference(PROJECT, "artifact_a")],
        PROJECT,
        MediaOperation::GenerateTimeline,
    )
    .expect_err("repeated");
    assert_eq!(error.message, "Timeline 输入文档包含跨项目或重复 Artifact 引用。");
    let error = document_input_artifact_ids(&[reference(PROJECT, "a")], PROJECT, MediaOperation::GenerateTimeline)
        .expect_err("invalid artifact");
    assert_eq!(error.message, "Timeline 输入文档包含无效 Artifact 引用。");
    let error = document_input_artifact_ids(&[], PROJECT, MediaOperation::GenerateTimeline).expect_err("none");
    assert_eq!(error.message, "Timeline 输入文档缺少有界 inputRefs。");
}

fn entries(pairs: &[(&str, &str)]) -> ScriptProvenanceField {
    ScriptProvenanceField::Entries(
        pairs
            .iter()
            .map(|(claim, evidence)| ScriptProvenanceEntry {
                claim_id: Some((*claim).to_owned()),
                evidence_ref: Some((*evidence).to_owned()),
            })
            .collect(),
    )
}

#[test]
fn provenance_union_is_sorted_and_exact() {
    let union = exact_artifact_provenance_union(
        &[
            entries(&[("claim_b", "evidence_1"), ("claim_a", "evidence_2")]),
            entries(&[("claim_a", "evidence_1"), ("claim_b", "evidence_1")]),
        ],
        MediaOperation::GenerateScenePlan,
    )
    .expect("union");
    let pair = |claim: &str, evidence: &str| CaptionProvenancePair {
        claim_id: claim.to_owned(),
        evidence_ref: evidence.to_owned(),
    };
    assert_eq!(
        union,
        vec![
            pair("claim_a", "evidence_1"),
            pair("claim_a", "evidence_2"),
            pair("claim_b", "evidence_1"),
        ]
    );
    let error = exact_artifact_provenance_union(
        &[entries(&[("claim_a", "evidence_1")]), ScriptProvenanceField::Absent],
        MediaOperation::GenerateScenePlan,
    )
    .expect_err("missing provenance");
    assert_eq!(error.message, "批准 Artifact 缺少可验证的 provenance 配对。");
    let error = exact_artifact_provenance_union(&[entries(&[("", "evidence_1")])], MediaOperation::GenerateScenePlan)
        .expect_err("empty claim");
    assert_eq!(error.message, "批准 Artifact 包含无效的 claim provenance。");
    let many: Vec<(String, String)> = (0..4097).map(|index| (format!("claim_{index}"), "e".to_owned())).collect();
    let many: Vec<(&str, &str)> = many.iter().map(|(claim, evidence)| (claim.as_str(), evidence.as_str())).collect();
    let error = exact_artifact_provenance_union(&[entries(&many)], MediaOperation::GenerateScenePlan)
        .expect_err("too many pairs");
    assert_eq!(error.code, MediaErrorCode::ResourceLimitExceeded);
}

use narracut_core::media_receipts::{check_receipt_binding, receipt_string, MediaReceiptFields};

fn receipt(operation: &str, run: &str, fingerprint: &str) -> MediaReceiptFields {
    MediaReceiptFields {
        operation: Some(operation.to_owned()),
        run_id: Some(run.to_owned()),
        base_artifact_id: Some("artifact_base".to_owned()),
        base_content_hash: Some(sha('c')),
        request_fingerprint: Some(fingerprint.to_owned()),
    }
}

#[test]
fn receipts_replay_only_the_request_they_answered() {
    let base_hash = sha('c');
    let check = |receipt: &MediaReceiptFields, operation: MediaOperation, base_id: &str| {
        check_receipt_binding(receipt, operation, "run_001", base_id, &base_hash, "fp_1")
    };
    assert!(check(&receipt("generate_timeline", "run_001", "fp_1"), MediaOperation::GenerateTimeline, "").is_ok());
    let error = check(&receipt("generate_timeline", "run_002", "fp_1"), MediaOperation::GenerateTimeline, "")
        .expect_err("other run");
    assert_eq!(error.code, MediaErrorCode::IdempotencyConflict);
    assert_eq!(error.message, "幂等键已绑定到不同的 Timeline 生成语义。");
    let error = check(&receipt("save_timeline", "run_001", "fp_1"), MediaOperation::SaveTimeline, "artifact_other")
        .expect_err("other base");
    assert_eq!(error.message, "幂等键已绑定到不同的 Timeline 保存语义。");
    assert!(check(&receipt("save_timeline", "run_001", "fp_1"), MediaOperation::SaveTimeline, "artifact_base").is_ok());
    let error = check(&receipt("import_audio", "run_001", "fp_2"), MediaOperation::ImportAudio, "")
        .expect_err("other fingerprint");
    assert_eq!(error.message, "幂等键已绑定到不同的 Audio 请求指纹。");
    let error = check(&receipt("import_captions", "run_001", "fp_2"), MediaOperation::ImportCaptions, "")
        .expect_err("other fingerprint");
    assert_eq!(error.message, "幂等键已绑定到不同的 Captions 导入语义。");

    assert_eq!(receipt_string(&Some("artifact_1".to_owned()), MediaOperation::ImportAudio).ok(), Some("artifact_1".to_owned()));
    assert!(receipt_string(&Some(String::new()), MediaOperation::ImportAudio).is_err());
    assert!(receipt_string(&Some("x".repeat(161)), MediaOperation::ImportAudio).is_err());
    let error = receipt_string(&None, MediaOperation::ImportAudio).expect_err("missing");
    assert_eq!(error.code, MediaErrorCode::ArtifactVerificationFailed);
}

use narracut_core::media_receipts::{check_replayed_artifact, ReplayedArtifactFacts};
use narracut_core::storage_types::ArtifactVerificationStatusData;

fn replayed() -> ReplayedArtifactFacts {
    let text = |value: &str| Some(value.to_owned());
    ReplayedArtifactFacts {
        owner_project_id: PROJECT.to_owned(),
        project_id: text(PROJECT),
        stage_id: text("timeline"),
        run_id: text("run_timeline"),
        kind: text("timeline"),
        content_hash: Some(sha('d')),
        source_artifact_ids: Some(vec![text("artifact_audio"), text("artifact_captions")]),
        verification_status: ArtifactVerificationStatusData::Verified,
        verified_content_hash: sha('d'),
    }
}

#[test]
fn replayed_artifacts_must_be_what_the_request_made() {
    let sources = vec!["artifact_audio".to_owned(), "artifact_captions".to_owned()];
    let check = |facts: &ReplayedArtifactFacts| {
        check_replayed_artifact(facts, PROJECT, "timeline", "run_timeline", &sha('d'), &sources, MediaOperation::GenerateTimeline)
    };
    assert!(check(&replayed()).is_ok());
    let mut reordered = replayed();
    reordered.source_artifact_ids = Some(vec![Some("artifact_captions".to_owned()), Some("artifact_audio".to_owned())]);
    assert_eq!(check(&reordered).expect_err("other sources").code, MediaErrorCode::ArtifactVerificationFailed);
    let mut corrupt = replayed();
    corrupt.verification_status = ArtifactVerificationStatusData::HashMismatch;
    assert!(check(&corrupt).is_err());
    let mut other_run = replayed();
    other_run.run_id = Some("run_other".to_owned());
    assert!(check(&other_run).is_err());
    let mut other_kind = replayed();
    other_kind.kind = Some("scene_plan".to_owned());
    assert!(check(&other_kind).is_err());
}
