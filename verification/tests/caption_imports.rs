use narracut_core::captions_import::{
    captions_import_step, start_captions_import, CaptionsImportAction, CaptionsImportEvent,
    CaptionsImportStage, CaptionsImportState,
};
use narracut_core::captions_document::captions_document;
use narracut_core::digest::stable_captions_receipt_id;
use narracut_core::media_error::MediaErrorCode;
use narracut_core::media_fingerprint::captions_request_fingerprint;
use narracut_core::media_receipts::MediaReceiptFields;
use narracut_core::media_requests::{ImportCaptionsOptions, SrtParseLimits};
use narracut_core::media_types::{FrozenArtifactInputData, MediaRightsData, VoiceAuthorizationApplicabilityData};

fn sha(character: char) -> String {
    format!("sha256:{}", character.to_string().repeat(64))
}

fn input(stage_id: &str) -> FrozenArtifactInputData {
    FrozenArtifactInputData {
        stage_id: stage_id.to_owned(),
        run_id: format!("run_{stage_id}"),
        artifact_id: format!("artifact_{stage_id}"),
        content_hash: sha('e'),
        review_record_id: format!("review_{stage_id}"),
        claim_ids: vec!["claim_1".to_owned()],
        evidence_refs: vec!["evidence_1".to_owned()],
    }
}

fn options() -> ImportCaptionsOptions {
    ImportCaptionsOptions {
        project_path: "/projects/demo".to_owned(),
        expected_project_id: "project_001".to_owned(),
        run_id: "run_captions_001".to_owned(),
        source_path: "/media/captions.srt".to_owned(),
        expected_source_content_hash: None,
        script_input: input("script"),
        audio_input: input("audio"),
        audio_duration_ms: 60_000,
        rights: MediaRightsData {
            ownership: "self_recorded".to_owned(),
            author: "Narrator".to_owned(),
            rights_statement: "Recorded for this project.".to_owned(),
            license_id: "all-rights-reserved".to_owned(),
            attribution_text: String::new(),
            authorization_records: Vec::new(),
            voice_authorization: VoiceAuthorizationApplicabilityData {
                applicability: "not_voice_clone".to_owned(),
                reason: "Human narration.".to_owned(),
            },
        },
        limits: SrtParseLimits {
            max_bytes: 1024,
            max_cue_count: 100,
            max_cue_text_bytes: 200,
        },
        config_snapshot: "{}".to_owned(),
        idempotency_key: "import-captions-001".to_owned(),
    }
}

fn step(state: CaptionsImportState, event: CaptionsImportEvent, expected: CaptionsImportAction) -> CaptionsImportState {
    let (next, action) = captions_import_step(state, event).expect("accepted step");
    assert_eq!(action, expected);
    next
}

fn parsed() -> CaptionsImportState {
    let (state, action) = start_captions_import(options(), true, Some("captions.srt")).expect("valid request");
    assert_eq!(action, CaptionsImportAction::OpenProject);
    assert_eq!(state.receipt_id, stable_captions_receipt_id("project_001", "import-captions-001"));
    let state = step(state, CaptionsImportEvent::ProjectOpened { project_id: "project_001".to_owned() }, CaptionsImportAction::ParseSource);
    step(state, CaptionsImportEvent::SourceParsed { content_hash: sha('c'), byte_length: 300 }, CaptionsImportAction::LoadReceipt)
}

fn audio_document(duration_ms: u64) -> CaptionsImportEvent {
    CaptionsImportEvent::AudioDocumentRead {
        document_type: Some("audio_media".to_owned()),
        project_id: Some("project_001".to_owned()),
        run_id: Some("run_audio".to_owned()),
        duration_ms: Some(duration_ms),
    }
}

#[test]
fn a_new_caption_import_fingerprints_the_parsed_source_and_runs_in_order() {
    let state = parsed();
    assert_eq!(state.fingerprint, captions_request_fingerprint(&options(), "captions.srt", &sha('c')));
    assert_eq!(state.captions_id, format!("captions_{}", &state.fingerprint["sha256:".len()..]));
    let state = step(state, CaptionsImportEvent::ReceiptLoaded { receipt: None }, CaptionsImportAction::ApproveInputs);
    let state = step(
        state,
        CaptionsImportEvent::InputsApproved {
            artifact_ids: vec![Some("artifact_script".to_owned()), Some("artifact_audio".to_owned())],
        },
        CaptionsImportAction::ReadInputs,
    );
    let error = captions_import_step(state.clone(), audio_document(59_999)).expect_err("other duration");
    assert_eq!(error.code, MediaErrorCode::InputReferenceMismatch);
    assert_eq!(error.message, "批准 AudioMediaDocument 的项目、运行或时长与冻结引用不一致。");
    let state = step(state, audio_document(60_000), CaptionsImportAction::ImportRaw);
    let error = captions_import_step(
        state.clone(),
        CaptionsImportEvent::RawImported { artifact_id: "raw".to_owned(), content_hash: Some(sha('d')), byte_length: Some(300) },
    )
    .expect_err("changed source");
    assert_eq!(error.message, "字幕源在解析与不可变导入之间发生变化。");
    let state = step(
        state,
        CaptionsImportEvent::RawImported { artifact_id: "raw".to_owned(), content_hash: Some(sha('c')), byte_length: Some(300) },
        CaptionsImportAction::StoreDocument,
    );
    let state = step(
        state,
        CaptionsImportEvent::DocumentStored { artifact_id: "doc".to_owned(), content_hash: sha('f'), persisted_matches: true },
        CaptionsImportAction::CommitReceipt,
    );
    let state = step(state, CaptionsImportEvent::ReceiptCommitted { created: true }, CaptionsImportAction::Finish);
    assert_eq!(state.stage, CaptionsImportStage::Done);
    assert_eq!(state.raw_artifact_id, "raw");
    assert_eq!(state.artifact_id, "doc");
}

#[test]
fn a_caption_receipt_replays_only_its_fingerprint() {
    let state = parsed();
    let mut stored = MediaReceiptFields {
        operation: Some("import_captions".to_owned()),
        run_id: Some("run_captions_001".to_owned()),
        base_artifact_id: None,
        base_content_hash: None,
        request_fingerprint: Some(state.fingerprint.clone()),
    };
    let replay = step(state.clone(), CaptionsImportEvent::ReceiptLoaded { receipt: Some(stored.clone()) }, CaptionsImportAction::ReplayReceipt);
    assert_eq!(replay.stage, CaptionsImportStage::Done);
    stored.request_fingerprint = Some(sha('0'));
    let error = captions_import_step(state, CaptionsImportEvent::ReceiptLoaded { receipt: Some(stored) }).expect_err("conflict");
    assert_eq!(error.code, MediaErrorCode::IdempotencyConflict);
    assert_eq!(error.message, "幂等键已绑定到不同的 Captions 导入语义。");
}

#[test]
fn caption_import_refusals() {
    let (state, _) = start_captions_import(options(), true, Some("captions.srt")).expect("valid");
    let error = captions_import_step(state.clone(), CaptionsImportEvent::ProjectOpened { project_id: "project_002".to_owned() })
        .expect_err("other project");
    assert_eq!(error.code, MediaErrorCode::CrossProjectReference);
    let state = step(state, CaptionsImportEvent::ProjectOpened { project_id: "project_001".to_owned() }, CaptionsImportAction::ParseSource);
    let error = captions_import_step(state, CaptionsImportEvent::SourceParsed { content_hash: "sha256:XYZ".to_owned(), byte_length: 3 })
        .expect_err("malformed hash");
    assert_eq!(error.code, MediaErrorCode::InvalidRequest);
    let state = step(parsed(), CaptionsImportEvent::ReceiptLoaded { receipt: None }, CaptionsImportAction::ApproveInputs);
    let error = captions_import_step(
        state,
        CaptionsImportEvent::InputsApproved {
            artifact_ids: vec![Some("artifact_audio".to_owned()), Some("artifact_script".to_owned())],
        },
    )
    .expect_err("swapped inputs");
    assert_eq!(error.message, "批准输入闭包返回了不一致的 Script/Audio Artifact。");
}

#[test]
fn the_captions_document_records_the_import_it_was_made_by() {
    let state = parsed();
    let state = step(state, CaptionsImportEvent::ReceiptLoaded { receipt: None }, CaptionsImportAction::ApproveInputs);
    let state = step(
        state,
        CaptionsImportEvent::InputsApproved {
            artifact_ids: vec![Some("artifact_script".to_owned()), Some("artifact_audio".to_owned())],
        },
        CaptionsImportAction::ReadInputs,
    );
    let state = step(state, audio_document(60_000), CaptionsImportAction::ImportRaw);
    let state = step(
        state,
        CaptionsImportEvent::RawImported { artifact_id: "artifact_raw".to_owned(), content_hash: Some(sha('c')), byte_length: Some(300) },
        CaptionsImportAction::StoreDocument,
    );
    let document = captions_document(&state, vec![], vec![], "2024-01-02T03:04:05Z".to_owned());
    assert_eq!(document.schema_version, "narracut.media/v1");
    assert_eq!(document.document_type, "captions_media");
    assert_eq!(document.captions_id, state.captions_id);
    assert_eq!(document.project_id, "project_001");
    assert_eq!(document.raw_artifact_id, "artifact_raw");
    assert_eq!(document.raw_content_hash, sha('c'));
    assert_eq!(document.source.source_file_name, "captions.srt");
    assert_eq!(document.source.byte_length, 300);
    assert_eq!(document.audio_input.input, options().audio_input);
    assert_eq!(document.input_refs.len(), 2);
    assert_eq!(document.input_refs[0].input, options().script_input);
    assert_eq!(document.input_refs[1].input, options().audio_input);
    assert_eq!(document.input_refs[1].project_id, "project_001");
    assert_eq!(document.config_snapshot, options().config_snapshot);
    assert_eq!(document.created_at, "2024-01-02T03:04:05Z");
}
