use narracut_core::caption_build::build_caption_cues_and_mappings;
use narracut_core::caption_script::{
    caption_script_traceability, CaptionScriptDocument, ScriptProvenanceEntry,
    ScriptProvenanceField, ScriptSegmentFields,
};
use narracut_core::caption_trace::{
    CaptionProvenancePair, CaptionScriptTraceability, ParsedCaptionCue,
};
use narracut_core::media_error::MediaErrorCode;

fn entry(claim: &str, evidence: &str) -> ScriptProvenanceEntry {
    ScriptProvenanceEntry {
        claim_id: Some(claim.to_owned()),
        evidence_ref: Some(evidence.to_owned()),
    }
}

fn provenance(pairs: &[(&str, &str)]) -> ScriptProvenanceField {
    ScriptProvenanceField::Entries(
        pairs
            .iter()
            .map(|(claim, evidence)| entry(claim, evidence))
            .collect(),
    )
}

fn segment(order: u64, id: &str, narration: &str, pairs: &[(&str, &str)]) -> ScriptSegmentFields {
    ScriptSegmentFields {
        order: Some(order),
        segment_id: Some(id.to_owned()),
        narration: Some(narration.to_owned()),
        provenance: provenance(pairs),
    }
}

fn structured(segments: Vec<ScriptSegmentFields>) -> CaptionScriptDocument {
    CaptionScriptDocument::Structured {
        matches_contract: true,
        segments: Some(segments),
    }
}

fn parsed_cues(texts: &[&str]) -> Vec<ParsedCaptionCue> {
    texts
        .iter()
        .enumerate()
        .map(|(index, text)| ParsedCaptionCue {
            cue_id: format!("cue_{}", index + 1),
            source_index: index as u64 + 1,
            start_ms: index as u64 * 100,
            end_ms: index as u64 * 100 + 100,
            text: (*text).to_owned(),
        })
        .collect()
}

fn pair(claim: &str, evidence: &str) -> CaptionProvenancePair {
    CaptionProvenancePair {
        claim_id: claim.to_owned(),
        evidence_ref: evidence.to_owned(),
    }
}

#[test]
fn cue_mapping_preserves_exact_pairs_without_cartesian_products() {
    let artifact = provenance(&[
        ("claim_1", "evidence_1"),
        ("claim_1", "evidence_2"),
        ("claim_2", "evidence_1"),
    ]);
    let script = structured(vec![
        segment(
            0,
            "segment_one",
            "Alpha cue.",
            &[("claim_1", "evidence_1"), ("claim_1", "evidence_2")],
        ),
        segment(1, "segment_two", "Beta cue.", &[("claim_2", "evidence_1")]),
    ]);
    let traceability =
        caption_script_traceability(&artifact, &script).expect("parse traceability");
    let cues = parsed_cues(&["Alpha cue.", "Beta cue."]);
    let (records, _, all_pairs) =
        build_caption_cues_and_mappings(&cues, &traceability).expect("map cues");

    assert_eq!(
        records[0].provenance,
        vec![pair("claim_1", "evidence_1"), pair("claim_1", "evidence_2")]
    );
    assert_eq!(records[1].provenance, vec![pair("claim_2", "evidence_1")]);
    assert_eq!(all_pairs.len(), 3);
    assert!(!records.iter().any(|record| {
        record
            .provenance
            .iter()
            .any(|pair| pair.claim_id == "claim_2" && pair.evidence_ref == "evidence_2")
    }));
}

#[test]
fn cue_can_span_segments_and_unmappable_errors_are_redacted() {
    let artifact = provenance(&[("claim_a", "evidence_a"), ("claim_b", "evidence_b")]);
    let script = structured(vec![
        segment(0, "segment_a", "Alpha ", &[("claim_a", "evidence_a")]),
        segment(1, "segment_b", " Beta", &[("claim_b", "evidence_b")]),
    ]);
    let traceability =
        caption_script_traceability(&artifact, &script).expect("parse traceability");
    let (records, _, _) =
        build_caption_cues_and_mappings(&parsed_cues(&["Alpha\u{3000}Beta"]), &traceability)
            .expect("map spanning cue");
    assert_eq!(records[0].provenance.len(), 2);

    let secret = "PRIVATE_CAPTION_TEXT";
    let error = build_caption_cues_and_mappings(&parsed_cues(&[secret]), &traceability)
        .expect_err("unmappable cue");
    assert_eq!(error.code, MediaErrorCode::InputReferenceMismatch);
    assert!(error.message.contains("sourceIndex=1"));
    assert!(error.message.contains("cueId=cue_1"));
    assert!(!error.message.contains(secret));
}

#[test]
fn legacy_script_is_only_allowed_without_factual_provenance() {
    let empty =
        caption_script_traceability(&provenance(&[]), &CaptionScriptDocument::OtherSchema)
            .expect("non-factual legacy script");
    let (records, _, all_pairs) =
        build_caption_cues_and_mappings(&parsed_cues(&["anything"]), &empty)
            .expect("empty traceability");
    assert!(records[0].provenance.is_empty());
    assert!(all_pairs.is_empty());

    let error = caption_script_traceability(
        &provenance(&[("claim_1", "evidence_1")]),
        &CaptionScriptDocument::OtherSchema,
    )
    .expect_err("factual legacy script must block");
    assert_eq!(error.code, MediaErrorCode::InputReferenceMismatch);
}

#[test]
fn script_traceability_joins_narration_without_whitespace() {
    let artifact = provenance(&[("claim_a", "evidence_a"), ("claim_b", "evidence_b")]);
    let script = structured(vec![
        segment(0, "segment_a", "Al pha", &[("claim_a", "evidence_a")]),
        segment(1, "segment_b", " Be\tta ", &[("claim_b", "evidence_b")]),
    ]);
    let traceability: CaptionScriptTraceability =
        caption_script_traceability(&artifact, &script).expect("traceability");
    assert_eq!(
        traceability.normalized_narration,
        "AlphaBeta".chars().collect::<Vec<char>>()
    );
    assert_eq!(traceability.segments.len(), 2);
    assert_eq!((traceability.segments[0].start, traceability.segments[0].end), (0, 5));
    assert_eq!((traceability.segments[1].start, traceability.segments[1].end), (5, 9));
    assert_eq!(traceability.segments[1].provenance, vec![pair("claim_b", "evidence_b")]);
}

#[test]
fn script_traceability_refuses_unused_foreign_and_malformed_provenance() {
    let artifact = provenance(&[("claim_a", "evidence_a"), ("claim_b", "evidence_b")]);
    let unused = structured(vec![segment(0, "segment_a", "Alpha", &[("claim_a", "evidence_a")])]);
    let error = caption_script_traceability(&artifact, &unused).expect_err("unused pair");
    assert_eq!(error.code, MediaErrorCode::InputReferenceMismatch);

    let foreign = structured(vec![segment(
        0,
        "segment_a",
        "Alpha",
        &[("claim_a", "evidence_a"), ("claim_b", "evidence_b"), ("claim_c", "evidence_c")],
    )]);
    let error = caption_script_traceability(&artifact, &foreign).expect_err("foreign pair");
    assert_eq!(error.code, MediaErrorCode::InputReferenceMismatch);

    let wrong_order = structured(vec![segment(
        1,
        "segment_a",
        "Alpha",
        &[("claim_a", "evidence_a"), ("claim_b", "evidence_b")],
    )]);
    assert!(caption_script_traceability(&artifact, &wrong_order).is_err());

    let bad_id = structured(vec![segment(
        0,
        "scene_a",
        "Alpha",
        &[("claim_a", "evidence_a"), ("claim_b", "evidence_b")],
    )]);
    assert!(caption_script_traceability(&artifact, &bad_id).is_err());

    let blank = structured(vec![segment(
        0,
        "segment_a",
        " \n ",
        &[("claim_a", "evidence_a"), ("claim_b", "evidence_b")],
    )]);
    assert!(caption_script_traceability(&artifact, &blank).is_err());

    let repeated = provenance(&[("claim_a", "evidence_a"), ("claim_a", "evidence_a")]);
    let error = caption_script_traceability(&repeated, &CaptionScriptDocument::Unreadable)
        .expect_err("repeated artifact pair");
    assert_eq!(error.code, MediaErrorCode::InputReferenceMismatch);

    let oversized = ScriptProvenanceField::Entries(
        (0..4097)
            .map(|index| entry(&format!("claim_{index}"), "evidence"))
            .collect(),
    );
    let error = caption_script_traceability(&oversized, &CaptionScriptDocument::Unreadable)
        .expect_err("oversized provenance");
    assert_eq!(error.code, MediaErrorCode::ResourceLimitExceeded);

    let not_contract = CaptionScriptDocument::Structured {
        matches_contract: false,
        segments: Some(Vec::new()),
    };
    assert!(caption_script_traceability(&ScriptProvenanceField::Absent, &not_contract).is_err());

    let empty = caption_script_traceability(
        &ScriptProvenanceField::Absent,
        &CaptionScriptDocument::Unreadable,
    )
    .expect("absent provenance and unreadable script");
    assert!(empty.segments.is_empty());
    assert!(caption_script_traceability(&ScriptProvenanceField::NotArray, &CaptionScriptDocument::Unreadable).is_err());
}
