use narracut_core::media_fingerprint::{
    audio_request, audio_request_fingerprint, captions_request, captions_request_fingerprint,
};
use narracut_core::media_requests::{
    ImportAudioOptions, ImportCaptionsOptions, PcmWavParseLimits, SrtParseLimits,
};
use narracut_core::media_types::{
    AuthorizationRecordInputData, FrozenArtifactInputData, MediaRightsData,
    VoiceAuthorizationApplicabilityData,
};
use serde_json::Value;
use sha2::{Digest, Sha256};

fn text(value: &str) -> Value {
    Value::String(value.to_owned())
}

fn object(entries: Vec<(&str, Value)>) -> Value {
    let mut map = serde_json::Map::new();
    for (key, value) in entries {
        map.insert(key.to_owned(), value);
    }
    Value::Object(map)
}

fn strings(values: &[String]) -> Value {
    Value::Array(values.iter().map(|value| text(value)).collect())
}

fn input(stage_id: &str) -> FrozenArtifactInputData {
    FrozenArtifactInputData {
        stage_id: stage_id.to_owned(),
        run_id: format!("run_{stage_id}"),
        artifact_id: format!("artifact_{stage_id}"),
        content_hash: format!("sha256:{}", "a".repeat(64)),
        review_record_id: format!("review_{stage_id}"),
        claim_ids: vec!["claim_1".to_owned(), "claim \"2\"".to_owned()],
        evidence_refs: vec!["evidence_1".to_owned()],
    }
}

fn input_json(input: &FrozenArtifactInputData) -> Value {
    object(vec![
        ("stageId", text(&input.stage_id)),
        ("runId", text(&input.run_id)),
        ("artifactId", text(&input.artifact_id)),
        ("contentHash", text(&input.content_hash)),
        ("reviewRecordId", text(&input.review_record_id)),
        ("claimIds", strings(&input.claim_ids)),
        ("evidenceRefs", strings(&input.evidence_refs)),
    ])
}

fn rights() -> MediaRightsData {
    MediaRightsData {
        ownership: "licensed".to_owned(),
        author: "Narrator\nOne".to_owned(),
        rights_statement: "Licensed for this project.".to_owned(),
        license_id: "CC-BY-4.0".to_owned(),
        attribution_text: "Voice: Narrator".to_owned(),
        authorization_records: vec![
            AuthorizationRecordInputData {
                authorization_record_id: "auth_1".to_owned(),
                authorization_type: "license".to_owned(),
                grantor: "Studio".to_owned(),
                scope: "narration".to_owned(),
                evidence_ref: "evidence_license".to_owned(),
                recorded_at: "2026-07-18T08:30:00Z".to_owned(),
            },
            AuthorizationRecordInputData {
                authorization_record_id: "auth_2".to_owned(),
                authorization_type: "release".to_owned(),
                grantor: "Narrator".to_owned(),
                scope: "voice".to_owned(),
                evidence_ref: "evidence_release".to_owned(),
                recorded_at: "2026-07-18T09:00:00Z".to_owned(),
            },
        ],
        voice_authorization: VoiceAuthorizationApplicabilityData {
            applicability: "not_voice_clone".to_owned(),
            reason: "Human narration.".to_owned(),
        },
    }
}

fn rights_json(rights: &MediaRightsData) -> Value {
    let records = rights
        .authorization_records
        .iter()
        .map(|record| {
            object(vec![
                ("authorizationRecordId", text(&record.authorization_record_id)),
                ("authorizationType", text(&record.authorization_type)),
                ("grantor", text(&record.grantor)),
                ("scope", text(&record.scope)),
                ("evidenceRef", text(&record.evidence_ref)),
                ("recordedAt", text(&record.recorded_at)),
            ])
        })
        .collect();
    object(vec![
        ("ownership", text(&rights.ownership)),
        ("author", text(&rights.author)),
        ("rightsStatement", text(&rights.rights_statement)),
        ("licenseId", text(&rights.license_id)),
        ("attributionText", text(&rights.attribution_text)),
        ("authorizationRecords", Value::Array(records)),
        (
            "voiceAuthorization",
            object(vec![
                ("applicability", text(&rights.voice_authorization.applicability)),
                ("reason", text(&rights.voice_authorization.reason)),
            ]),
        ),
    ])
}

fn config() -> Value {
    object(vec![("mode", text("standard")), ("gain", Value::from(3))])
}

fn canonical_hash(value: &Value) -> String {
    let bytes = serde_json::to_vec(value).expect("serializable");
    let hex: String = Sha256::digest(bytes).iter().map(|byte| format!("{byte:02x}")).collect();
    format!("sha256:{hex}")
}

fn audio_options() -> ImportAudioOptions {
    ImportAudioOptions {
        project_path: "/projects/demo".to_owned(),
        expected_project_id: "project_001".to_owned(),
        run_id: "run_audio_001".to_owned(),
        source_path: "/media/voice.wav".to_owned(),
        expected_source_content_hash: None,
        script_input: input("script"),
        rights: rights(),
        limits: PcmWavParseLimits { max_bytes: 4096 },
        config_snapshot: serde_json::to_string(&config()).expect("config"),
        idempotency_key: "import-audio-001".to_owned(),
    }
}

fn captions_options() -> ImportCaptionsOptions {
    ImportCaptionsOptions {
        project_path: "/projects/demo".to_owned(),
        expected_project_id: "project_001".to_owned(),
        run_id: "run_captions_001".to_owned(),
        source_path: "/media/captions.srt".to_owned(),
        expected_source_content_hash: Some(format!("sha256:{}", "b".repeat(64))),
        script_input: input("script"),
        audio_input: input("audio"),
        audio_duration_ms: 60_000,
        rights: rights(),
        limits: SrtParseLimits {
            max_bytes: 1024,
            max_cue_count: 100,
            max_cue_text_bytes: 200,
        },
        config_snapshot: serde_json::to_string(&config()).expect("config"),
        idempotency_key: "import-captions-001".to_owned(),
    }
}

#[test]
fn audio_fingerprint_hashes_the_canonical_request() {
    let options = audio_options();
    let expected = object(vec![
        ("version", Value::from(1)),
        ("operation", text("import_audio")),
        ("projectId", text(&options.expected_project_id)),
        ("runId", text(&options.run_id)),
        (
            "source",
            object(vec![
                ("sourceFileName", text("voice.wav")),
                ("expectedSourceContentHash", Value::Null),
            ]),
        ),
        ("scriptInput", input_json(&options.script_input)),
        ("rights", rights_json(&options.rights)),
        ("limits", object(vec![("maxBytes", Value::from(4096))])),
        ("configSnapshot", config()),
    ]);
    assert_eq!(audio_request(&options, "voice.wav"), serde_json::to_string(&expected).expect("json"));
    assert_eq!(audio_request_fingerprint(&options, "voice.wav"), canonical_hash(&expected));

    let mut other = options.clone();
    other.limits.max_bytes = 4097;
    assert_ne!(
        audio_request_fingerprint(&other, "voice.wav"),
        audio_request_fingerprint(&options, "voice.wav")
    );
    let mut same = options.clone();
    same.idempotency_key = "another-key".to_owned();
    same.project_path = "/elsewhere/demo".to_owned();
    assert_eq!(
        audio_request_fingerprint(&same, "voice.wav"),
        audio_request_fingerprint(&options, "voice.wav")
    );
}

#[test]
fn captions_fingerprint_hashes_the_canonical_request() {
    let options = captions_options();
    let source_hash = format!("sha256:{}", "c".repeat(64));
    let expected = object(vec![
        ("version", Value::from(1)),
        ("operation", text("import_captions")),
        ("projectId", text(&options.expected_project_id)),
        ("runId", text(&options.run_id)),
        (
            "source",
            object(vec![
                ("sourceFileName", text("captions.srt")),
                ("sourceContentHash", text(&source_hash)),
                (
                    "expectedSourceContentHash",
                    text(options.expected_source_content_hash.as_deref().expect("hash")),
                ),
            ]),
        ),
        ("scriptInput", input_json(&options.script_input)),
        ("audioInput", input_json(&options.audio_input)),
        ("audioDurationMs", Value::from(60_000)),
        ("rights", rights_json(&options.rights)),
        (
            "limits",
            object(vec![
                ("maxBytes", Value::from(1024)),
                ("maxCueCount", Value::from(100)),
                ("maxCueTextBytes", Value::from(200)),
            ]),
        ),
        ("configSnapshot", config()),
    ]);
    assert_eq!(
        captions_request(&options, "captions.srt", &source_hash),
        serde_json::to_string(&expected).expect("json")
    );
    assert_eq!(
        captions_request_fingerprint(&options, "captions.srt", &source_hash),
        canonical_hash(&expected)
    );
    assert_ne!(
        captions_request_fingerprint(&options, "captions.srt", &format!("sha256:{}", "d".repeat(64))),
        canonical_hash(&expected)
    );
}
