use narracut_core::caption_build::{build_caption_cues_and_mappings, CaptionCueRecord, CaptionMapping};
use narracut_core::caption_trace::{CaptionScriptTraceability, ParsedCaptionCue};
use narracut_core::media_error::{MediaErrorCode, MediaOperation};
use narracut_core::media_read::{check_audio_document, check_caption_timing, AudioDocumentFacts, StoredCueFacts, StoredMappingFacts};

fn cue(index: u64, start_ms: u64, end_ms: u64, text: &str) -> ParsedCaptionCue {
    ParsedCaptionCue {
        cue_id: format!("cue_{index}"),
        source_index: index,
        start_ms,
        end_ms,
        text: text.to_owned(),
    }
}

fn stored_cue(record: &CaptionCueRecord) -> StoredCueFacts {
    StoredCueFacts {
        cue_id: Some(record.cue_id.clone()),
        source_index: Some(record.source_index),
        start_ms: Some(record.start_ms),
        end_ms: Some(record.end_ms),
        text: Some(record.text.clone()),
    }
}

fn stored_mapping(mapping: &CaptionMapping) -> StoredMappingFacts {
    StoredMappingFacts {
        mapping_id: Some(mapping.mapping_id.clone()),
        source_cue_id: Some(mapping.source_cue_id.clone()),
        level: Some(mapping.level.as_str().to_owned()),
        start_ms: Some(mapping.start_ms),
        end_ms: Some(mapping.end_ms),
        timing_precision: Some(mapping.level.timing_precision().to_owned()),
        timing_basis: Some(mapping.level.timing_basis().to_owned()),
        text: Some(mapping.text.clone()),
    }
}

fn built() -> (Vec<StoredCueFacts>, Vec<StoredMappingFacts>) {
    let untraced = CaptionScriptTraceability {
        normalized_narration: Vec::new(),
        segments: Vec::new(),
    };
    let cues = vec![
        cue(1, 0, 1200, "Hello there. How are you?"),
        cue(2, 1200, 2000, "你好，世界。"),
    ];
    let (records, mappings, _) = build_caption_cues_and_mappings(&cues, &untraced).expect("build");
    (
        records.iter().map(stored_cue).collect(),
        mappings.iter().map(stored_mapping).collect(),
    )
}

#[test]
fn built_captions_read_back_as_valid_timing() {
    let (cues, mappings) = built();
    assert_eq!(cues.len(), 2);
    assert!(mappings.len() >= 6);
    check_caption_timing(&cues, &mappings, MediaOperation::ReadMediaDocument).expect("built captions read back");
}

#[test]
fn stored_caption_timing_refuses_gaps_overlaps_and_orphans() {
    let (cues, mappings) = built();
    let op = MediaOperation::ReadMediaDocument;

    let mut overlapping = cues.clone();
    overlapping[1].start_ms = Some(1100);
    let error = check_caption_timing(&overlapping, &mappings, op).expect_err("overlapping cues");
    assert_eq!(error.code, MediaErrorCode::ContractViolation);
    assert_eq!(error.message, "Captions cue 必须连续编号、唯一、有序且不重叠。");

    let mut orphan = mappings.clone();
    orphan[0].source_cue_id = Some("cue_9".to_owned());
    let error = check_caption_timing(&cues, &orphan, op).expect_err("unknown cue");
    assert_eq!(error.code, MediaErrorCode::InputReferenceMismatch);

    let word = mappings
        .iter()
        .position(|mapping| mapping.level.as_deref() == Some("word"))
        .expect("a word mapping");
    let mut missing = mappings.clone();
    missing.remove(word);
    let error = check_caption_timing(&cues, &missing, op).expect_err("uncovered cue");
    assert_eq!(error.code, MediaErrorCode::ContractViolation);

    let mut repeated = mappings.clone();
    repeated.push(mappings[0].clone());
    assert!(check_caption_timing(&cues, &repeated, op).is_err());
}

fn audio_facts() -> AudioDocumentFacts {
    let hash = "ab".repeat(32);
    AudioDocumentFacts {
        sample_rate_hz: Some(16_000),
        bits_per_sample: Some(16),
        channels: Some(1),
        block_align: Some(2),
        byte_rate: Some(32_000),
        data_bytes: Some(3_200),
        duration_ms: Some(100),
        source_content_hash: Some(format!("sha256:{hash}")),
        artifact_uri: Some(format!("artifacts/objects/sha256/ab/{hash}")),
    }
}

#[test]
fn audio_documents_have_consistent_pcm_parameters() {
    let op = MediaOperation::ReadMediaDocument;
    check_audio_document(&audio_facts(), op).expect("consistent PCM");
    let mut facts = audio_facts();
    facts.duration_ms = Some(101);
    let error = check_audio_document(&facts, op).expect_err("wrong duration");
    assert_eq!(error.code, MediaErrorCode::ContractViolation);
    let mut facts = audio_facts();
    facts.byte_rate = Some(16_000);
    assert!(check_audio_document(&facts, op).is_err());
    let mut facts = audio_facts();
    facts.artifact_uri = Some("artifacts/objects/sha256/cd/x".to_owned());
    assert!(check_audio_document(&facts, op).is_err());
    let mut facts = audio_facts();
    facts.channels = None;
    assert_eq!(check_audio_document(&facts, op).expect_err("missing field").code, MediaErrorCode::InputReferenceMismatch);
}
