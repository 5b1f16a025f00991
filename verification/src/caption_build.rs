use vstd::prelude::*;

use crate::caption_trace::{
    caption_provenance_projection, cue_provenance, cue_trace, extend_unique, pair_view, pairs_view,
    union_in_order, CaptionProvenancePair, CaptionScriptTraceability, ParsedCaptionCue,
};
use crate::digest::{mapping_preimage, sha256_spec, stable_mapping_id};
use crate::hex::hex_lower;
use crate::media_error::{MediaErrorCode, MediaOperation, MediaServiceError};
use crate::segmentation::{
    split_sentences, split_sentences_spec, string_views, tokenize_words, tokenize_words_spec,
};
use crate::text::{text_weight, text_weight_spec};
use crate::timing::{partition_accepted, partition_ranges, partition_time_range};

verus! {

/// The most timing mappings one caption document holds.
pub const MAX_CAPTION_MAPPINGS: usize = 200_000;

/// The granularity of a caption timing mapping.
#[derive(Debug, Clone, Copy, PartialEq, Eq, Structural)]
pub enum CaptionMappingLevel {
    Cue,
    Sentence,
    Word,
}

/// The name of a mapping level.
pub open spec fn level_name(level: CaptionMappingLevel) -> Seq<char> {
    match level {
        CaptionMappingLevel::Cue => "cue"@,
        CaptionMappingLevel::Sentence => "sentence"@,
        CaptionMappingLevel::Word => "word"@,
    }
}

impl CaptionMappingLevel {
    /// The name of this level.
    pub fn as_str(self) -> (name: &'static str)
        ensures
            name@ == level_name(self),
    {
        match self {
            CaptionMappingLevel::Cue => "cue",
            CaptionMappingLevel::Sentence => "sentence",
            CaptionMappingLevel::Word => "word",
        }
    }

    /// How precise the timing of mappings at this level is: exact for cues,
    /// estimated below them.
    pub fn timing_precision(self) -> (precision: &'static str)
        ensures
            precision@ == if self == CaptionMappingLevel::Cue {
                "cue_exact"@
            } else {
                "estimated"@
            },
    {
        match self {
            CaptionMappingLevel::Cue => "cue_exact",
            _ => "estimated",
        }
    }

    /// What the timing of mappings at this level rests on.
    pub fn timing_basis(self) -> (basis: &'static str)
        ensures
            basis@ == match self {
                CaptionMappingLevel::Cue => "srt_cue"@,
                CaptionMappingLevel::Sentence => "sentence_interpolation"@,
                CaptionMappingLevel::Word => "word_interpolation"@,
            },
    {
        match self {
            CaptionMappingLevel::Cue => "srt_cue",
            CaptionMappingLevel::Sentence => "sentence_interpolation",
            CaptionMappingLevel::Word => "word_interpolation",
        }
    }
}

/// A timing mapping of a piece of a caption cue.
#[derive(Debug, Clone, PartialEq, Eq)]
pub struct CaptionMapping {
    pub mapping_id: String,
    pub level: CaptionMappingLevel,
    pub source_cue_id: String,
    pub start_ms: u64,
    pub end_ms: u64,
    pub text: String,
}

/// A caption cue with its provenance and traceability sets.
#[derive(Debug, Clone, PartialEq, Eq)]
pub struct CaptionCueRecord {
    pub cue_id: String,
    pub source_index: u64,
    pub start_ms: u64,
    pub end_ms: u64,
    pub text: String,
    pub provenance: Vec<CaptionProvenancePair>,
    pub claim_ids: Vec<String>,
    pub evidence_refs: Vec<String>,
}

/// A mapping's identifier, level, cue, start, end and text.
pub open spec fn mapping_view(mapping: CaptionMapping) -> (
    Seq<char>,
    CaptionMappingLevel,
    Seq<char>,
    u64,
    u64,
    Seq<char>,
) {
    (
        mapping.mapping_id@,
        mapping.level,
        mapping.source_cue_id@,
        mapping.start_ms,
        mapping.end_ms,
        mapping.text@,
    )
}

/// The views of a list of mappings.
pub open spec fn mappings_view(mappings: Seq<CaptionMapping>) -> Seq<
    (Seq<char>, CaptionMappingLevel, Seq<char>, u64, u64, Seq<char>),
> {
    mappings.map_values(|m: CaptionMapping| mapping_view(m))
}

/// The stable identifier of the `index`-th mapping of `level` with `text` in a cue.
pub open spec fn mapping_id_spec(
    cue_id: Seq<char>,
    level: CaptionMappingLevel,
    index: int,
    text: Seq<char>,
) -> Seq<char> {
    "map_"@ + hex_lower(sha256_spec(mapping_preimage(cue_id, level_name(level), index as u64, text)))
}

/// The weights of the pieces of a cue.
pub open spec fn piece_weights(pieces: Seq<Seq<char>>) -> Seq<u64> {
    pieces.map_values(|p: Seq<char>| text_weight_spec(p) as u64)
}

/// The mappings of the pieces of a cue at `level`, timed by partitioning the
/// cue's range by the pieces' weights.
pub open spec fn piece_mappings(
    cue: ParsedCaptionCue,
    level: CaptionMappingLevel,
    pieces: Seq<Seq<char>>,
) -> Seq<(Seq<char>, CaptionMappingLevel, Seq<char>, u64, u64, Seq<char>)> {
    let ranges = partition_ranges(cue.start_ms as int, cue.end_ms as int, piece_weights(pieces));
    Seq::new(
        pieces.len(),
        |i: int|
            (
                mapping_id_spec(cue.cue_id@, level, i, pieces[i]),
                level,
                cue.cue_id@,
                ranges[i].0,
                ranges[i].1,
                pieces[i],
            ),
    )
}

/// The mapping of a whole cue.
pub open spec fn cue_mapping(cue: ParsedCaptionCue) -> (
    Seq<char>,
    CaptionMappingLevel,
    Seq<char>,
    u64,
    u64,
    Seq<char>,
) {
    (
        mapping_id_spec(cue.cue_id@, CaptionMappingLevel::Cue, 0, cue.text@),
        CaptionMappingLevel::Cue,
        cue.cue_id@,
        cue.start_ms,
        cue.end_ms,
        cue.text@,
    )
}

/// The message for too many mappings.
pub open spec fn mapping_limit_message() -> Seq<char> {
    "字幕 timing mappings 超过 200000 条契约上限。"@
}

/// What building the captions has produced after some cues: the mappings,
/// the union of all provenance, the script cursor and each cue's provenance.
pub type CaptionBuildState = (
    Seq<(Seq<char>, CaptionMappingLevel, Seq<char>, u64, u64, Seq<char>)>,
    Seq<(Seq<char>, Seq<char>)>,
    int,
    Seq<Seq<(Seq<char>, Seq<char>)>>,
);

/// The code and, where it is fixed, the message of a failed caption build.
pub type CaptionBuildFailure = (MediaErrorCode, Option<Seq<char>>);

/// The code a refused partition of `start..end` is reported with.
pub open spec fn partition_failure_code(start: u64, end: u64) -> MediaErrorCode {
    if end < start {
        MediaErrorCode::InvalidMedia
    } else {
        MediaErrorCode::ResourceLimitExceeded
    }
}

/// One cue's step of the caption build.
pub open spec fn build_step(
    traceability: CaptionScriptTraceability,
    cue: ParsedCaptionCue,
    state: CaptionBuildState,
) -> Result<CaptionBuildState, CaptionBuildFailure> {
    let limit_failure = (MediaErrorCode::ResourceLimitExceeded, Some(mapping_limit_message()));
    match cue_trace(traceability, cue, state.2) {
        None => Err(
            (MediaErrorCode::InputReferenceMismatch, Some(crate::caption_trace::unmappable_message(cue))),
        ),
        Some((provenance, next)) => {
            let sentences = split_sentences_spec(cue.text@);
            let words = tokenize_words_spec(cue.text@);
            let m = state.0.len();
            if m >= MAX_CAPTION_MAPPINGS {
                Err(limit_failure)
            } else if !partition_accepted(
                cue.start_ms as int,
                cue.end_ms as int,
                piece_weights(sentences),
            ) {
                Err((partition_failure_code(cue.start_ms, cue.end_ms), None))
            } else if m + 1 + sentences.len() > MAX_CAPTION_MAPPINGS {
                Err(limit_failure)
            } else if !partition_accepted(cue.start_ms as int, cue.end_ms as int, piece_weights(words)) {
                Err((partition_failure_code(cue.start_ms, cue.end_ms), None))
            } else if m + 1 + sentences.len() + words.len() > MAX_CAPTION_MAPPINGS {
                Err(limit_failure)
            } else {
                Ok(
                    (
                        state.0.push(cue_mapping(cue)) + piece_mappings(
                            cue,
                            CaptionMappingLevel::Sentence,
                            sentences,
                        ) + piece_mappings(cue, CaptionMappingLevel::Word, words),
                        union_in_order(state.1, provenance),
                        next,
                        state.3.push(provenance),
                    ),
                )
            }
        },
    }
}

/// The caption build over `cues` in order; the first failing cue fails it.
pub open spec fn build_fold(
    traceability: CaptionScriptTraceability,
    cues: Seq<ParsedCaptionCue>,
) -> Result<CaptionBuildState, CaptionBuildFailure>
    decreases cues.len(),
{
    if cues.len() == 0 {
        Ok((Seq::empty(), Seq::empty(), 0, Seq::empty()))
    } else {
        match build_fold(traceability, cues.drop_last()) {
            Err(failure) => Err(failure),
            Ok(state) => build_step(traceability, cues.last(), state),
        }
    }
}

/// A cue record holds the cue, its provenance, and its claims and evidence,
/// each once, in order of first appearance.
pub open spec fn record_of(
    record: CaptionCueRecord,
    cue: ParsedCaptionCue,
    provenance: Seq<(Seq<char>, Seq<char>)>,
) -> bool {
    &&& record.cue_id == cue.cue_id
    &&& record.source_index == cue.source_index
    &&& record.start_ms == cue.start_ms
    &&& record.end_ms == cue.end_ms
    &&& record.text == cue.text
    &&& pairs_view(record.provenance@) == provenance
    &&& record.claim_ids@.map_values(|s: String| s@) == union_in_order(
        Seq::<Seq<char>>::empty(),
        provenance.map_values(|p: (Seq<char>, Seq<char>)| p.0),
    )
    &&& record.evidence_refs@.map_values(|s: String| s@) == union_in_order(
        Seq::<Seq<char>>::empty(),
        provenance.map_values(|p: (Seq<char>, Seq<char>)| p.1),
    )
}

/// Once a cue fails, the whole build fails the same way.
proof fn lemma_build_failure_persists(
    traceability: CaptionScriptTraceability,
    cues: Seq<ParsedCaptionCue>,
    k: int,
)
    requires
        0 < k <= cues.len(),
        build_fold(traceability, cues.take(k)) is Err,
    ensures
        build_fold(traceability, cues) == build_fold(traceability, cues.take(k)),
    decreases cues.len() - k,
{
    if k == cues.len() {
        assert(cues.take(k) =~= cues);
    } else {
        assert(cues.take(k + 1).drop_last() =~= cues.take(k));
        lemma_build_failure_persists(traceability, cues, k + 1);
    }
}

/// Appends a mapping unless the list is full.
pub fn push_mapping(
    mappings: &mut Vec<CaptionMapping>,
    mapping: CaptionMapping,
    operation: MediaOperation,
) -> (result: Result<(), MediaServiceError>)
    ensures
        result is Ok <==> old(mappings)@.len() < MAX_CAPTION_MAPPINGS,
        result is Ok ==> final(mappings)@ == old(mappings)@.push(mapping),
        result matches Err(error) ==> {
            &&& final(mappings)@ == old(mappings)@
            &&& error.code == MediaErrorCode::ResourceLimitExceeded
            &&& error.operation == operation
            &&& error.message@ == mapping_limit_message()
        },
{
    if mappings.len() >= MAX_CAPTION_MAPPINGS {
        return Err(
            MediaServiceError::new(
                MediaErrorCode::ResourceLimitExceeded,
                operation,
                "字幕 timing mappings 超过 200000 条契约上限。",
            ),
        );
    }
    mappings.push(mapping);
    Ok(())
}

/// The weights of the pieces.
fn weights_of(pieces: &Vec<String>) -> (weights: Vec<u64>)
    ensures
        weights@ == piece_weights(string_views(pieces@)),
{
    let mut weights: Vec<u64> = Vec::new();
    let mut i: usize = 0;
    while i < pieces.len()
        invariant
            0 <= i <= pieces@.len(),
            weights@ == piece_weights(string_views(pieces@.take(i as int))),
        decreases pieces@.len() - i,
    {
        weights.push(text_weight(pieces[i].as_str()));
        assert(piece_weights(string_views(pieces@.take(i + 1))) =~= piece_weights(
            string_views(pieces@.take(i as int)),
        ).push(text_weight_spec(pieces@[i as int]@) as u64));
        i = i + 1;
    }
    assert(pieces@.take(pieces@.len() as int) =~= pieces@);
    weights
}

/// Appends the mappings of the pieces of `cue` at `level`, timed by `ranges`.
fn push_piece_mappings(
    mappings: &mut Vec<CaptionMapping>,
    cue: &ParsedCaptionCue,
    level: CaptionMappingLevel,
    pieces: &Vec<String>,
    ranges: &Vec<(u64, u64)>,
    operation: MediaOperation,
) -> (result: Result<(), MediaServiceError>)
    requires
        ranges@ == partition_ranges(
            cue.start_ms as int,
            cue.end_ms as int,
            piece_weights(string_views(pieces@)),
        ),
        pieces@.len() == ranges@.len(),
        old(mappings)@.len() <= MAX_CAPTION_MAPPINGS,
    ensures
        result is Ok <==> old(mappings)@.len() + pieces@.len() <= MAX_CAPTION_MAPPINGS,
        result is Ok ==> mappings_view(final(mappings)@) == mappings_view(old(mappings)@)
            + piece_mappings(*cue, level, string_views(pieces@)),
        result matches Err(error) ==> {
            &&& error.code == MediaErrorCode::ResourceLimitExceeded
            &&& error.operation == operation
            &&& error.message@ == mapping_limit_message()
        },
{
    let ghost before = mappings_view(mappings@);
    let ghost expected = piece_mappings(*cue, level, string_views(pieces@));
    let name = level.as_str();
    let mut i: usize = 0;
    while i < pieces.len()
        invariant
            ranges@ == partition_ranges(
                cue.start_ms as int,
                cue.end_ms as int,
                piece_weights(string_views(pieces@)),
            ),
            pieces@.len() == ranges@.len(),
            expected == piece_mappings(*cue, level, string_views(pieces@)),
            name@ == level_name(level),
            0 <= i <= pieces@.len(),
            mappings@.len() == old(mappings)@.len() + i,
            old(mappings)@.len() + i <= MAX_CAPTION_MAPPINGS,
            mappings_view(mappings@) == before + expected.take(i as int),
            before == mappings_view(old(mappings)@),
        decreases pieces@.len() - i,
    {
        let (start_ms, end_ms) = ranges[i];
        let mapping = CaptionMapping {
            mapping_id: stable_mapping_id(cue.cue_id.as_str(), name, i, pieces[i].as_str()),
            level,
            source_cue_id: cue.cue_id.clone(),
            start_ms,
            end_ms,
            text: pieces[i].clone(),
        };
        let ghost prior = mappings_view(mappings@);
        match push_mapping(mappings, mapping, operation) {
            Ok(()) => {},
            Err(error) => {
                return Err(error);
            },
        }
        proof {
            assert(string_views(pieces@)[i as int] == pieces@[i as int]@);
            assert(mapping_view(mapping) == expected[i as int]);
            assert(mappings_view(mappings@) =~= prior.push(mapping_view(mapping)));
            assert(expected.take(i + 1) =~= expected.take(i as int).push(expected[i as int]));
        }
        i = i + 1;
    }
    assert(expected.take(pieces@.len() as int) =~= expected);
    Ok(())
}

/// One cue's step of the caption build: traces the cue, appends its
/// mappings and its new provenance, moves the cursor and gives back the
/// cue's record.
fn build_cue(
    traceability: &CaptionScriptTraceability,
    cue: &ParsedCaptionCue,
    cursor: &mut usize,
    mappings: &mut Vec<CaptionMapping>,
    all: &mut Vec<CaptionProvenancePair>,
    Ghost(provenances): Ghost<Seq<Seq<(Seq<char>, Seq<char>)>>>,
) -> (result: Result<CaptionCueRecord, MediaServiceError>)
    ensures
        match build_step(
            *traceability,
            *cue,
            (mappings_view(old(mappings)@), pairs_view(old(all)@), *old(cursor) as int, provenances),
        ) {
            Ok(next) => {
                &&& result matches Ok(record)
                &&& mappings_view(final(mappings)@) == next.0
                &&& pairs_view(final(all)@) == next.1
                &&& *final(cursor) as int == next.2
                &&& next.3 == provenances.push(next.3.last())
                &&& record_of(record, *cue, next.3.last())
            },
            Err((code, message)) => {
                &&& result matches Err(error)
                &&& error.code == code
                &&& error.operation == MediaOperation::ImportCaptions
                &&& (message matches Some(text) ==> error.message@ == text)
            },
        },
{
    let operation = MediaOperation::ImportCaptions;
    let provenance = cue_provenance(traceability, cue, cursor)?;
    let (claim_ids, evidence_refs) = caption_provenance_projection(provenance.as_slice());
    extend_unique(all, provenance.as_slice());
    let cue_mapping_value = CaptionMapping {
        mapping_id: stable_mapping_id(cue.cue_id.as_str(), "cue", 0, cue.text.as_str()),
        level: CaptionMappingLevel::Cue,
        source_cue_id: cue.cue_id.clone(),
        start_ms: cue.start_ms,
        end_ms: cue.end_ms,
        text: cue.text.clone(),
    };
    let ghost before_cue = mappings_view(mappings@);
    push_mapping(mappings, cue_mapping_value, operation)?;
    proof {
        assert(mapping_view(cue_mapping_value) == cue_mapping(*cue));
        assert(mappings_view(mappings@) =~= before_cue.push(cue_mapping(*cue)));
    }
    let sentences = split_sentences(cue.text.as_str());
    let sentence_weights = weights_of(&sentences);
    let sentence_ranges = partition_time_range(
        cue.start_ms,
        cue.end_ms,
        sentence_weights.as_slice(),
        operation,
    )?;
    push_piece_mappings(
        mappings,
        cue,
        CaptionMappingLevel::Sentence,
        &sentences,
        &sentence_ranges,
        operation,
    )?;
    let words = tokenize_words(cue.text.as_str());
    let word_weights = weights_of(&words);
    let word_ranges = partition_time_range(cue.start_ms, cue.end_ms, word_weights.as_slice(), operation)?;
    push_piece_mappings(mappings, cue, CaptionMappingLevel::Word, &words, &word_ranges, operation)?;
    Ok(
        CaptionCueRecord {
            cue_id: cue.cue_id.clone(),
            source_index: cue.source_index,
            start_ms: cue.start_ms,
            end_ms: cue.end_ms,
            text: cue.text.clone(),
            provenance,
            claim_ids,
            evidence_refs,
        },
    )
}

/// Builds the caption cues and their timing mappings: each cue is traced back
/// to the script in order, and gets one exact cue mapping and estimated
/// sentence and word mappings that partition its range by text weight. The
/// result also holds the union of all provenance in order of first appearance.
pub fn build_caption_cues_and_mappings(
    cues: &[ParsedCaptionCue],
    script_traceability: &CaptionScriptTraceability,
) -> (result: Result<(Vec<CaptionCueRecord>, Vec<CaptionMapping>, Vec<CaptionProvenancePair>), MediaServiceError>)
    ensures
        match build_fold(*script_traceability, cues@) {
            Ok(state) => {
                &&& result matches Ok((records, mappings, all))
                &&& mappings_view(mappings@) == state.0
                &&& pairs_view(all@) == state.1
                &&& records@.len() == cues@.len()
                &&& forall|i: int|
                    0 <= i < cues@.len() ==> record_of(#[trigger] records@[i], cues@[i], state.3[i])
            },
            Err((code, message)) => {
                &&& result matches Err(error)
                &&& error.code == code
                &&& error.operation == MediaOperation::ImportCaptions
                &&& (message matches Some(text) ==> error.message@ == text)
            },
        },
{
    let ghost trace = *script_traceability;
    let mut records: Vec<CaptionCueRecord> = Vec::new();
    let mut mappings: Vec<CaptionMapping> = Vec::new();
    let mut all: Vec<CaptionProvenancePair> = Vec::new();
    let mut cursor: usize = 0;
    let mut k: usize = 0;
    assert(cues@.take(0) =~= Seq::<ParsedCaptionCue>::empty());
    assert(mappings_view(mappings@) =~= Seq::empty());
    assert(pairs_view(all@) =~= Seq::empty());
    while k < cues.len()
        invariant
            trace == *script_traceability,
            0 <= k <= cues@.len(),
            records@.len() == k,
            build_fold(trace, cues@.take(k as int)) matches Ok(state) && {
                &&& mappings_view(mappings@) == state.0
                &&& pairs_view(all@) == state.1
                &&& cursor as int == state.2
                &&& state.3.len() == k
                &&& forall|i: int| 0 <= i < k ==> record_of(#[trigger] records@[i], cues@[i], state.3[i])
            },
        decreases cues@.len() - k,
    {
        let cue = &cues[k];
        let ghost state = build_fold(trace, cues@.take(k as int))->Ok_0;
        proof {
            assert(cues@.take(k + 1).drop_last() =~= cues@.take(k as int));
            assert(cues@.take(k + 1).last() == *cue);
        }
        let record = match build_cue(
            script_traceability,
            cue,
            &mut cursor,
            &mut mappings,
            &mut all,
            Ghost(state.3),
        ) {
            Ok(record) => record,
            Err(error) => {
                proof {
                    lemma_build_failure_persists(trace, cues@, k + 1);
                }
                return Err(error);
            },
        };
        records.push(record);
        k = k + 1;
    }
    assert(cues@.take(cues@.len() as int) =~= cues@);
    Ok((records, mappings, all))
}

} // verus!
