use narracut_core::audio_import::{
    audio_import_step, start_audio_import, AudioImportAction, AudioImportEvent, AudioImportStage,
    AudioImportState,
};
use narracut_core::digest::stable_audio_receipt_id;
use narracut_core::media_error::MediaErrorCode;
use narracut_core::media_fingerprint::audio_request_fingerprint;
use narracut_core::media_receipts::MediaReceiptFields;
use narracut_core::media_requests::{ImportAudioOptions, PcmWavParseLimits};
use narracut_core::media_types::{FrozenArtifactInputData, MediaRightsData, VoiceAuthorizationApplicabilityData};

fn sha(character: char) -> String {
    format!("sha256:{}", character.to_string().repeat(64))
}

fn options() -> ImportAudioOptions {
    ImportAudioOptions {
        project_path: "/projects/demo".to_owned(),
        expected_project_id: "project_001".to_owned(),
        run_id: "run_audio_001".to_owned(),
        source_path: "/media/voice.wav".to_owned(),
        expected_source_content_hash: Some(sha('a')),
        script_input: FrozenArtifactInputData {
            stage_id: "script".to_owned(),
            run_id: "run_script".to_owned(),
            artifact_id: "artifact_script".to_owned(),
            content_hash: sha('e'),
            review_record_id: "review_script".to_owned(),
            claim_ids: vec!["claim_1".to_owned()],
            evidence_refs: vec!["evidence_1".to_owned()],
        },
        rights: MediaRightsData {
            ownership: "self_recorded".to_owned(),
            author: "Narrator".to_owned(),
            rights_statement: "Recorded for this project.".to_owned(),
            license_id: "all-rights-reserved".to_owned(),
            attribution_text: String::new(),
            authorization_records: Vec::new(),
            voice_authorization: VoiceAuthorizationApplicabilityData {
                applicability: "not_voice_clone".to_owned(),
                reason: "Human narration.".to_owned(),
            },
        },
        limits: PcmWavParseLimits { max_bytes: 4096 },
        config_snapshot: "{}".to_owned(),
        idempotency_key: "import-audio-001".to_owned(),
    }
}

fn started() -> AudioImportState {
    let (state, action) = start_audio_import(&options(), true, Some("voice.wav")).expect("valid request");
    assert_eq!(action, AudioImportAction::OpenProject);
    state
}

fn step(state: AudioImportState, event: AudioImportEvent, expected: AudioImportAction) -> AudioImportState {
    let (next, action) = audio_import_step(state, event).expect("accepted step");
    assert_eq!(action, expected);
    next
}

fn receipt(fingerprint: &str) -> MediaReceiptFields {
    MediaReceiptFields {
        operation: Some("import_audio".to_owned()),
        run_id: Some("run_audio_001".to_owned()),
        base_artifact_id: None,
        base_content_hash: None,
        request_fingerprint: Some(fingerprint.to_owned()),
    }
}

#[test]
fn a_new_audio_import_runs_every_step_in_order() {
    let state = started();
    assert_eq!(state.fingerprint, audio_request_fingerprint(&options(), "voice.wav"));
    assert_eq!(state.receipt_id, stable_audio_receipt_id("project_001", "import-audio-001"));
    assert_eq!(state.media_id, format!("audio_{}", &state.fingerprint["sha256:".len()..]));
    let state = step(state, AudioImportEvent::ProjectOpened { project_id: "project_001".to_owned() }, AudioImportAction::LoadReceipt);
    let state = step(state, AudioImportEvent::ReceiptLoaded { receipt: None }, AudioImportAction::ParseSource);
    let state = step(state, AudioImportEvent::SourceParsed { content_hash: sha('a'), byte_length: 2048 }, AudioImportAction::ApproveInputs);
    let state = step(
        state,
        AudioImportEvent::InputsApproved { artifact_ids: vec![Some("artifact_script".to_owned())] },
        AudioImportAction::ReadScript,
    );
    let state = step(state, AudioImportEvent::ScriptRead, AudioImportAction::ImportRaw);
    let state = step(
        state,
        AudioImportEvent::RawImported { artifact_id: "artifact_raw".to_owned(), content_hash: Some(sha('a')), byte_length: Some(2048) },
        AudioImportAction::StoreDocument,
    );
    let state = step(
        state,
        AudioImportEvent::DocumentStored { artifact_id: "artifact_doc".to_owned(), content_hash: sha('d'), persisted_matches: true },
        AudioImportAction::CommitReceipt,
    );
    let state = step(state, AudioImportEvent::ReceiptCommitted { created: true }, AudioImportAction::Finish);
    assert_eq!(state.stage, AudioImportStage::Done);
    assert_eq!(state.raw_artifact_id, "artifact_raw");
    assert_eq!(state.artifact_id, "artifact_doc");
    assert_eq!(state.content_hash, sha('d'));
    assert_eq!(state.source_byte_length, 2048);
}

#[test]
fn a_stored_receipt_replays_its_own_request_and_refuses_another() {
    let state = started();
    let state = step(state, AudioImportEvent::ProjectOpened { project_id: "project_001".to_owned() }, AudioImportAction::LoadReceipt);
    let fingerprint = state.fingerprint.clone();
    let replay = step(state.clone(), AudioImportEvent::ReceiptLoaded { receipt: Some(receipt(&fingerprint)) }, AudioImportAction::ReplayReceipt);
    assert_eq!(replay.stage, AudioImportStage::Done);

    let error = audio_import_step(state.clone(), AudioImportEvent::ReceiptLoaded { receipt: Some(receipt(&sha('f'))) })
        .expect_err("other fingerprint");
    assert_eq!(error.code, MediaErrorCode::IdempotencyConflict);
    assert_eq!(error.message, "幂等键已绑定到不同的 Audio 请求指纹。");

    let mut other_run = receipt(&fingerprint);
    other_run.run_id = Some("run_audio_002".to_owned());
    let error = audio_import_step(state, AudioImportEvent::ReceiptLoaded { receipt: Some(other_run) })
        .expect_err("other run");
    assert_eq!(error.message, "幂等键已绑定到不同的 Audio 导入语义。");
}

#[test]
fn a_lost_receipt_race_replays_or_fails() {
    let state = started();
    let state = step(state, AudioImportEvent::ProjectOpened { project_id: "project_001".to_owned() }, AudioImportAction::LoadReceipt);
    let state = step(state, AudioImportEvent::ReceiptLoaded { receipt: None }, AudioImportAction::ParseSource);
    let state = step(state, AudioImportEvent::SourceParsed { content_hash: sha('a'), byte_length: 10 }, AudioImportAction::ApproveInputs);
    let state = step(state, AudioImportEvent::InputsApproved { artifact_ids: vec![Some("artifact_script".to_owned())] }, AudioImportAction::ReadScript);
    let state = step(state, AudioImportEvent::ScriptRead, AudioImportAction::ImportRaw);
    let state = step(
        state,
        AudioImportEvent::RawImported { artifact_id: "raw".to_owned(), content_hash: Some(sha('a')), byte_length: Some(10) },
        AudioImportAction::StoreDocument,
    );
    let state = step(
        state,
        AudioImportEvent::DocumentStored { artifact_id: "doc".to_owned(), content_hash: sha('d'), persisted_matches: true },
        AudioImportAction::CommitReceipt,
    );
    let state = step(state, AudioImportEvent::ReceiptCommitted { created: false }, AudioImportAction::LoadReceipt);
    assert!(state.receipt_committed);
    let error = audio_import_step(state, AudioImportEvent::ReceiptLoaded { receipt: None }).expect_err("nothing to replay");
    assert_eq!(error.code, MediaErrorCode::IdempotencyConflict);
    assert_eq!(error.message, "Audio receipt 并发提交后无法重放。");
}

#[test]
fn mismatched_reports_stop_the_import() {
    let error = audio_import_step(started(), AudioImportEvent::ProjectOpened { project_id: "project_002".to_owned() })
        .expect_err("other project");
    assert_eq!(error.code, MediaErrorCode::CrossProjectReference);

    let state = step(started(), AudioImportEvent::ProjectOpened { project_id: "project_001".to_owned() }, AudioImportAction::LoadReceipt);
    let state = step(state, AudioImportEvent::ReceiptLoaded { receipt: None }, AudioImportAction::ParseSource);
    let error = audio_import_step(state.clone(), AudioImportEvent::SourceParsed { content_hash: sha('b'), byte_length: 10 })
        .expect_err("frozen hash");
    assert_eq!(error.code, MediaErrorCode::SourceHashMismatch);
    let state = step(state, AudioImportEvent::SourceParsed { content_hash: sha('a'), byte_length: 10 }, AudioImportAction::ApproveInputs);
    let error = audio_import_step(state.clone(), AudioImportEvent::InputsApproved { artifact_ids: vec![] })
        .expect_err("no approval");
    assert_eq!(error.code, MediaErrorCode::InputReferenceMismatch);
    let state = step(state, AudioImportEvent::InputsApproved { artifact_ids: vec![Some("artifact_script".to_owned())] }, AudioImportAction::ReadScript);
    let state = step(state, AudioImportEvent::ScriptRead, AudioImportAction::ImportRaw);
    let error = audio_import_step(
        state.clone(),
        AudioImportEvent::RawImported { artifact_id: "raw".to_owned(), content_hash: Some(sha('a')), byte_length: Some(11) },
    )
    .expect_err("changed source");
    assert_eq!(error.code, MediaErrorCode::SourceChanged);
    let state = step(
        state,
        AudioImportEvent::RawImported { artifact_id: "raw".to_owned(), content_hash: Some(sha('a')), byte_length: Some(10) },
        AudioImportAction::StoreDocument,
    );
    let error = audio_import_step(
        state,
        AudioImportEvent::DocumentStored { artifact_id: "doc".to_owned(), content_hash: sha('d'), persisted_matches: false },
    )
    .expect_err("document differs");
    assert_eq!(error.code, MediaErrorCode::ArtifactVerificationFailed);
    assert!(start_audio_import(&options(), false, Some("voice.wav")).is_err());
}
