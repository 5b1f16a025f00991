use vstd::prelude::*;

use crate::caption_trace::{
    pair_view, pairs_view, same_pair, CaptionProvenancePair, CaptionScriptSegment,
    CaptionScriptTraceability,
};
use crate::identifiers::{all_distinct, prefixed_id_spec, valid_prefixed_id};
use crate::media_error::{plain_media_error, MediaErrorCode, MediaOperation, MediaServiceError};
use crate::text::{
    chars_of, lemma_strip_whitespace_len, normalize_caption_trace_text, strip_whitespace,
    valid_bounded_text, valid_bounded_text_spec,
};

verus! {

/// The most entries a provenance array may hold.
pub const MAX_SCRIPT_PROVENANCE_ENTRIES: usize = 4096;

/// The most segments a structured script may hold, and the most provenance
/// pairs one segment may carry.
pub const MAX_SCRIPT_SEGMENTS: usize = 128;

/// The most characters of one segment's narration.
pub const MAX_SEGMENT_NARRATION_CHARS: usize = 8000;

/// One entry of a provenance array as it was read: its `claimId` and
/// `evidenceRef` where they are strings.
#[derive(Debug, Clone, PartialEq, Eq)]
pub struct ScriptProvenanceEntry {
    pub claim_id: Option<String>,
    pub evidence_ref: Option<String>,
}

/// A `provenance` field as it was read: missing, not an array, or its entries.
#[derive(Debug, Clone, PartialEq, Eq)]
pub enum ScriptProvenanceField {
    Absent,
    NotArray,
    Entries(Vec<ScriptProvenanceEntry>),
}

/// The fields of a script segment that tracing reads, each where it has the
/// expected JSON type.
#[derive(Debug, Clone, PartialEq, Eq)]
pub struct ScriptSegmentFields {
    pub order: Option<u64>,
    pub segment_id: Option<String>,
    pub narration: Option<String>,
    pub provenance: ScriptProvenanceField,
}

/// The approved script document as read: not JSON, JSON of another schema
/// version, or a structured script (whether it meets the script contract, and
/// its `segments` where that is an array).
#[derive(Debug, Clone, PartialEq, Eq)]
pub enum CaptionScriptDocument {
    Unreadable,
    OtherSchema,
    Structured { matches_contract: bool, segments: Option<Vec<ScriptSegmentFields>> },
}

/// The message of a script whose structured provenance cannot be verified.
pub open spec fn unverifiable_script_message() -> Seq<char> {
    "批准 Script Artifact 的结构化 provenance 无法验证。"@
}

/// The message of a provenance array over its limit.
pub open spec fn oversized_provenance_message() -> Seq<char> {
    "Script provenance 超过安全上限。"@
}

/// `error` is the caption import error of `code` with its fixed message.
pub open spec fn script_trace_error(error: MediaServiceError, code: MediaErrorCode) -> bool {
    plain_media_error(
        error,
        code,
        MediaOperation::ImportCaptions,
        if code == MediaErrorCode::ResourceLimitExceeded {
            oversized_provenance_message()
        } else {
            unverifiable_script_message()
        },
    )
}

/// The text of a field that was read, or nothing.
pub open spec fn field_text(value: Option<String>) -> Seq<char> {
    match value {
        Some(text) => text@,
        None => Seq::empty(),
    }
}

/// A field that holds a non-empty text of at most 512 characters without
/// control characters.
pub open spec fn bounded_field(value: Option<String>) -> bool {
    match value {
        Some(text) => valid_bounded_text_spec(text@, 512, false),
        None => false,
    }
}

/// An entry whose claim and evidence are both acceptable.
pub open spec fn entry_valid(entry: ScriptProvenanceEntry) -> bool {
    bounded_field(entry.claim_id) && bounded_field(entry.evidence_ref)
}

/// The claim and evidence texts of an entry.
pub open spec fn entry_pair(entry: ScriptProvenanceEntry) -> (Seq<char>, Seq<char>) {
    (field_text(entry.claim_id), field_text(entry.evidence_ref))
}

/// The claim and evidence texts of entries.
pub open spec fn entries_pairs(entries: Seq<ScriptProvenanceEntry>) -> Seq<(Seq<char>, Seq<char>)> {
    entries.map_values(|entry: ScriptProvenanceEntry| entry_pair(entry))
}

/// Why a provenance array is refused: too many entries, or an entry that is
/// not acceptable or repeats an earlier pair.
pub open spec fn entries_refusal(entries: Seq<ScriptProvenanceEntry>) -> Option<MediaErrorCode> {
    if entries.len() > MAX_SCRIPT_PROVENANCE_ENTRIES {
        Some(MediaErrorCode::ResourceLimitExceeded)
    } else if (exists|i: int| 0 <= i < entries.len() && !entry_valid(#[trigger] entries[i]))
        || !all_distinct(entries_pairs(entries)) {
        Some(MediaErrorCode::InputReferenceMismatch)
    } else {
        None
    }
}

/// Why a `provenance` field is refused: it is not an array, or its entries are refused.
pub open spec fn provenance_refusal(field: ScriptProvenanceField) -> Option<MediaErrorCode> {
    match field {
        ScriptProvenanceField::Entries(entries) => entries_refusal(entries@),
        _ => Some(MediaErrorCode::InputReferenceMismatch),
    }
}

/// The pairs of a `provenance` field (none unless it holds entries).
pub open spec fn field_pairs(field: ScriptProvenanceField) -> Seq<(Seq<char>, Seq<char>)> {
    match field {
        ScriptProvenanceField::Entries(entries) => entries_pairs(entries@),
        _ => Seq::empty(),
    }
}

fn unverifiable_script() -> (error: MediaServiceError)
    ensures
        script_trace_error(error, MediaErrorCode::InputReferenceMismatch),
{
    MediaServiceError::new(
        MediaErrorCode::InputReferenceMismatch,
        MediaOperation::ImportCaptions,
        "批准 Script Artifact 的结构化 provenance 无法验证。",
    )
}

fn bounded_field_exec(value: &Option<String>) -> (result: bool)
    ensures
        result == bounded_field(*value),
{
    match value {
        Some(text) => valid_bounded_text(text.as_str(), 512, false),
        None => false,
    }
}

/// Reads the provenance pairs of an array's entries, refusing an array over
/// its limit, an entry without an acceptable claim or evidence, and a
/// repeated pair.
pub fn parse_provenance_entries(entries: &[ScriptProvenanceEntry]) -> (result: Result<
    Vec<CaptionProvenancePair>,
    MediaServiceError,
>)
    ensures
        match entries_refusal(entries@) {
            Some(code) => result matches Err(error) && script_trace_error(error, code),
            None => result matches Ok(pairs) && pairs_view(pairs@) == entries_pairs(entries@),
        },
{
    if entries.len() > MAX_SCRIPT_PROVENANCE_ENTRIES {
        return Err(
            MediaServiceError::new(
                MediaErrorCode::ResourceLimitExceeded,
                MediaOperation::ImportCaptions,
                "Script provenance 超过安全上限。",
            ),
        );
    }
    let mut pairs: Vec<CaptionProvenancePair> = Vec::new();
    let mut i: usize = 0;
    while i < entries.len()
        invariant
            entries@.len() <= MAX_SCRIPT_PROVENANCE_ENTRIES,
            0 <= i <= entries@.len(),
            forall|j: int| 0 <= j < i ==> entry_valid(#[trigger] entries@[j]),
            pairs_view(pairs@) == entries_pairs(entries@.take(i as int)),
            all_distinct(pairs_view(pairs@)),
            pairs@.len() == i,
        decreases entries@.len() - i,
    {
        let entry = &entries[i];
        let ghost before = pairs_view(pairs@);
        assert(entries_pairs(entries@.take(i + 1)) =~= before.push(entry_pair(*entry)));
        if !(bounded_field_exec(&entry.claim_id) && bounded_field_exec(&entry.evidence_ref)) {
            assert(!entry_valid(entries@[i as int]));
            return Err(unverifiable_script());
        }
        let pair = match (&entry.claim_id, &entry.evidence_ref) {
            (Some(claim), Some(evidence)) => CaptionProvenancePair {
                claim_id: claim.clone(),
                evidence_ref: evidence.clone(),
            },
            _ => {
                return Err(unverifiable_script());
            },
        };
        let mut q: usize = 0;
        while q < pairs.len()
            invariant
                before == pairs_view(pairs@),
                before == entries_pairs(entries@.take(i as int)),
                i < entries@.len(),
                entries@.len() <= MAX_SCRIPT_PROVENANCE_ENTRIES,
                pairs@.len() == i,
                *entry == entries@[i as int],
                pair_view(pair) == entry_pair(*entry),
                0 <= q <= pairs@.len(),
                forall|j: int| 0 <= j < q ==> before[j] != pair_view(pair),
            decreases pairs@.len() - q,
        {
            assert(before[q as int] == pair_view(pairs@[q as int]));
            if same_pair(&pairs[q], &pair) {
                proof {
                    let whole = entries_pairs(entries@);
                    assert(whole[q as int] == before[q as int]) by {
                        assert(entries@.take(i as int)[q as int] == entries@[q as int]);
                    }
                    assert(whole[i as int] == entry_pair(entries@[i as int]));
                    assert(!all_distinct(whole));
                }
                return Err(unverifiable_script());
            }
            q = q + 1;
        }
        pairs.push(pair);
        assert(pairs_view(pairs@) =~= before.push(entry_pair(*entry)));
        i = i + 1;
    }
    assert(entries@.take(entries@.len() as int) =~= entries@);
    assert(!(exists|j: int| 0 <= j < entries@.len() && !entry_valid(#[trigger] entries@[j])));
    Ok(pairs)
}

/// Why one segment, at `index`, is refused against the artifact's pairs: a
/// wrong order or identifier, a missing, empty or overlong narration, a
/// narration of whitespace only, a refused provenance, or provenance that is
/// empty, over its limit or not all of the artifact's.
pub open spec fn segment_refusal(
    segment: ScriptSegmentFields,
    index: int,
    artifact: Seq<(Seq<char>, Seq<char>)>,
) -> Option<MediaErrorCode> {
    let narration = field_text(segment.narration);
    let pairs = field_pairs(segment.provenance);
    if !(segment.order == Some(index as u64) && segment.segment_id is Some && prefixed_id_spec(
        field_text(segment.segment_id),
        "segment_"@,
        160,
    )) {
        Some(MediaErrorCode::InputReferenceMismatch)
    } else if !(segment.narration is Some && 0 < narration.len() <= MAX_SEGMENT_NARRATION_CHARS) {
        Some(MediaErrorCode::InputReferenceMismatch)
    } else if strip_whitespace(narration).len() == 0 {
        Some(MediaErrorCode::InputReferenceMismatch)
    } else if provenance_refusal(segment.provenance) is Some {
        provenance_refusal(segment.provenance)
    } else if pairs.len() == 0 || pairs.len() > MAX_SCRIPT_SEGMENTS || exists|k: int|
        0 <= k < pairs.len() && !artifact.contains(#[trigger] pairs[k]) {
        Some(MediaErrorCode::InputReferenceMismatch)
    } else {
        None
    }
}

/// The first refusal among the first `n` segments.
pub open spec fn segments_refusal(
    segments: Seq<ScriptSegmentFields>,
    artifact: Seq<(Seq<char>, Seq<char>)>,
    n: int,
) -> Option<MediaErrorCode>
    decreases n,
{
    if n <= 0 {
        None
    } else if segments_refusal(segments, artifact, n - 1) is Some {
        segments_refusal(segments, artifact, n - 1)
    } else {
        segment_refusal(segments[n - 1], n - 1, artifact)
    }
}

/// The narrations of the first `n` segments without whitespace, joined.
pub open spec fn joined_narration(segments: Seq<ScriptSegmentFields>, n: int) -> Seq<char>
    decreases n,
{
    if n <= 0 {
        Seq::empty()
    } else {
        joined_narration(segments, n - 1) + strip_whitespace(field_text(segments[n - 1].narration))
    }
}

/// Some segment's provenance holds `pair`.
pub open spec fn pair_used_by(segments: Seq<ScriptSegmentFields>, pair: (Seq<char>, Seq<char>)) -> bool {
    exists|i: int| 0 <= i < segments.len() && #[trigger] field_pairs(segments[i].provenance).contains(pair)
}

/// Every pair of the artifact is carried by some segment.
pub open spec fn artifact_pairs_used(
    segments: Seq<ScriptSegmentFields>,
    artifact: Seq<(Seq<char>, Seq<char>)>,
) -> bool {
    forall|a: int| 0 <= a < artifact.len() ==> pair_used_by(segments, #[trigger] artifact[a])
}

/// Why the script is refused for tracing captions: a refused artifact
/// provenance; a script that is not structured while the artifact claims
/// provenance; a structured script that breaks its contract, has no or too
/// many segments, a refused segment, or leaves a pair of the artifact unused.
pub open spec fn script_traceability_refusal(
    artifact_provenance: ScriptProvenanceField,
    document: CaptionScriptDocument,
) -> Option<MediaErrorCode> {
    let artifact = field_pairs(artifact_provenance);
    if !(artifact_provenance is Absent) && provenance_refusal(artifact_provenance) is Some {
        provenance_refusal(artifact_provenance)
    } else {
        match document {
            CaptionScriptDocument::Structured { matches_contract, segments } => {
                if !matches_contract {
                    Some(MediaErrorCode::InputReferenceMismatch)
                } else {
                    match segments {
                        Some(list) => {
                            if list@.len() == 0 || list@.len() > MAX_SCRIPT_SEGMENTS {
                                Some(MediaErrorCode::InputReferenceMismatch)
                            } else if segments_refusal(list@, artifact, list@.len() as int) is Some {
                                segments_refusal(list@, artifact, list@.len() as int)
                            } else if !artifact_pairs_used(list@, artifact) {
                                Some(MediaErrorCode::InputReferenceMismatch)
                            } else {
                                None
                            }
                        },
                        None => Some(MediaErrorCode::InputReferenceMismatch),
                    }
                }
            },
            _ => if artifact.len() == 0 {
                None
            } else {
                Some(MediaErrorCode::InputReferenceMismatch)
            },
        }
    }
}

/// `traceability` is what tracing builds from the segments: their narrations
/// without whitespace joined, and for each segment its span there and its
/// provenance pairs.
pub open spec fn traceability_of(
    traceability: CaptionScriptTraceability,
    segments: Seq<ScriptSegmentFields>,
) -> bool {
    &&& traceability.normalized_narration@ == joined_narration(segments, segments.len() as int)
    &&& traceability.segments@.len() == segments.len()
    &&& forall|i: int|
        0 <= i < segments.len() ==> {
            let segment = #[trigger] traceability.segments@[i];
            &&& segment.start == joined_narration(segments, i).len()
            &&& segment.end == joined_narration(segments, i + 1).len()
            &&& pairs_view(segment.provenance@) == field_pairs(segments[i].provenance)
        }
}

/// Whether `list` holds `pair`.
fn pair_listed(list: &[CaptionProvenancePair], pair: &CaptionProvenancePair) -> (result: bool)
    ensures
        result == pairs_view(list@).contains(pair_view(*pair)),
{
    let mut k: usize = 0;
    while k < list.len()
        invariant
            0 <= k <= list@.len(),
            forall|j: int| 0 <= j < k ==> pairs_view(list@)[j] != pair_view(*pair),
        decreases list@.len() - k,
    {
        if same_pair(&list[k], pair) {
            assert(pairs_view(list@)[k as int] == pair_view(*pair));
            return true;
        }
        k = k + 1;
    }
    false
}

proof fn lemma_segments_refusal_stays(
    segments: Seq<ScriptSegmentFields>,
    artifact: Seq<(Seq<char>, Seq<char>)>,
    n: int,
    m: int,
)
    requires
        0 <= n <= m,
        segments_refusal(segments, artifact, n) is Some,
    ensures
        segments_refusal(segments, artifact, m) == segments_refusal(segments, artifact, n),
    decreases m - n,
{
    if m > n {
        lemma_segments_refusal_stays(segments, artifact, n, m - 1);
    }
}

#[verifier::loop_isolation(false)]
/// Checks one segment, at `index`, against the artifact's pairs, and gives its
/// narration without whitespace and its provenance pairs.
fn check_segment(
    segment: &ScriptSegmentFields,
    index: usize,
    artifact: &[CaptionProvenancePair],
) -> (result: Result<(Vec<char>, Vec<CaptionProvenancePair>), MediaServiceError>)
    ensures
        match segment_refusal(*segment, index as int, pairs_view(artifact@)) {
            Some(code) => result matches Err(error) && script_trace_error(error, code),
            None => result matches Ok((narration, pairs)) && {
                &&& narration@ == strip_whitespace(field_text(segment.narration))
                &&& narration@.len() <= MAX_SEGMENT_NARRATION_CHARS
                &&& pairs_view(pairs@) == field_pairs(segment.provenance)
            },
        },
{
    proof {
        reveal_strlit("segment_");
    }
    let order_ok = match &segment.order {
        Some(order) => *order == index as u64,
        None => false,
    };
    let id_ok = match &segment.segment_id {
        Some(id) => valid_prefixed_id(id.as_str(), "segment_", 160),
        None => false,
    };
    if !(order_ok && id_ok) {
        return Err(unverifiable_script());
    }
    let text = match &segment.narration {
        Some(text) => text,
        None => {
            return Err(unverifiable_script());
        },
    };
    let count = chars_of(text.as_str()).len();
    if count == 0 || count > MAX_SEGMENT_NARRATION_CHARS {
        return Err(unverifiable_script());
    }
    let normalized = normalize_caption_trace_text(text.as_str());
    proof {
        lemma_strip_whitespace_len(text@);
    }
    if normalized.len() == 0 {
        return Err(unverifiable_script());
    }
    let pairs = match &segment.provenance {
        ScriptProvenanceField::Entries(entries) => match parse_provenance_entries(entries.as_slice()) {
            Ok(pairs) => pairs,
            Err(error) => {
                return Err(error);
            },
        },
        _ => {
            return Err(unverifiable_script());
        },
    };
    if pairs.len() == 0 || pairs.len() > MAX_SCRIPT_SEGMENTS {
        return Err(unverifiable_script());
    }
    let mut k: usize = 0;
    while k < pairs.len()
        invariant
            0 <= k <= pairs@.len(),
            forall|j: int| 0 <= j < k ==> pairs_view(artifact@).contains(#[trigger] pairs_view(pairs@)[j]),
        decreases pairs@.len() - k,
    {
        if !pair_listed(artifact, &pairs[k]) {
            assert(!pairs_view(artifact@).contains(pairs_view(pairs@)[k as int]));
            return Err(unverifiable_script());
        }
        k = k + 1;
    }
    Ok((normalized, pairs))
}

/// Some segment carries `pair`.
pub open spec fn pair_carried(segments: Seq<CaptionScriptSegment>, pair: (Seq<char>, Seq<char>)) -> bool {
    exists|i: int| 0 <= i < segments.len() && #[trigger] pairs_view(segments[i].provenance@).contains(pair)
}

/// Whether every pair of `artifact` is carried by one of `segments`.
fn artifact_used(artifact: &[CaptionProvenancePair], segments: &[CaptionScriptSegment]) -> (result: bool)
    ensures
        result == forall|a: int|
            0 <= a < artifact@.len() ==> pair_carried(segments@, #[trigger] pairs_view(artifact@)[a]),
{
    let mut a: usize = 0;
    while a < artifact.len()
        invariant
            0 <= a <= artifact@.len(),
            forall|b: int| 0 <= b < a ==> pair_carried(segments@, #[trigger] pairs_view(artifact@)[b]),
        decreases artifact@.len() - a,
    {
        let ghost wanted = pairs_view(artifact@)[a as int];
        assert(wanted == pair_view(artifact@[a as int]));
        let mut used = false;
        let mut s: usize = 0;
        while s < segments.len()
            invariant
                wanted == pair_view(artifact@[a as int]),
                a < artifact@.len(),
                0 <= s <= segments@.len(),
                used ==> pair_carried(segments@, wanted),
                !used ==> forall|i: int|
                    0 <= i < s ==> !(#[trigger] pairs_view(segments@[i].provenance@)).contains(wanted),
            decreases segments@.len() - s,
        {
            if pair_listed(segments[s].provenance.as_slice(), &artifact[a]) {
                assert(pairs_view(segments@[s as int].provenance@).contains(wanted));
                used = true;
            }
            s = s + 1;
        }
        if !used {
            assert(!pair_carried(segments@, wanted));
            return false;
        }
        a = a + 1;
    }
    true
}

#[verifier::loop_isolation(false)]
/// Builds the traceability of the approved script that captions are traced
/// back to. The artifact's provenance, where present, must be a valid
/// provenance array. A script that is not a structured script is accepted,
/// with nothing to trace, only when the artifact claims no provenance. A
/// structured script must meet its contract and hold one to 128 segments, each
/// in order, with a `segment_` identifier, a narration of 1 to 8000
/// characters that is not all whitespace, and 1 to 128 provenance pairs of
/// the artifact; together the segments must carry every pair of the artifact.
pub fn caption_script_traceability(
    artifact_provenance: &ScriptProvenanceField,
    document: &CaptionScriptDocument,
) -> (result: Result<CaptionScriptTraceability, MediaServiceError>)
    ensures
        match script_traceability_refusal(*artifact_provenance, *document) {
            Some(code) => result matches Err(error) && script_trace_error(error, code),
            None => result matches Ok(traceability) && match *document {
                CaptionScriptDocument::Structured { segments: Some(list), .. } => traceability_of(
                    traceability,
                    list@,
                ),
                _ => traceability.normalized_narration@.len() == 0
                    && traceability.segments@.len() == 0,
            },
        },
{
    let artifact: Vec<CaptionProvenancePair> = match artifact_provenance {
        ScriptProvenanceField::Absent => Vec::new(),
        ScriptProvenanceField::NotArray => {
            return Err(unverifiable_script());
        },
        ScriptProvenanceField::Entries(entries) => match parse_provenance_entries(entries.as_slice()) {
            Ok(pairs) => pairs,
            Err(error) => {
                return Err(error);
            },
        },
    };
    let ghost artifact_view = pairs_view(artifact@);
    assert(artifact_view == field_pairs(*artifact_provenance));
    let list = match document {
        CaptionScriptDocument::Structured { matches_contract, segments } => {
            if !*matches_contract {
                return Err(unverifiable_script());
            }
            match segments {
                Some(list) => list,
                None => {
                    return Err(unverifiable_script());
                },
            }
        },
        _ => {
            if artifact.len() == 0 {
                return Ok(
                    CaptionScriptTraceability { normalized_narration: Vec::new(), segments: Vec::new() },
                );
            }
            return Err(unverifiable_script());
        },
    };
    if list.len() == 0 || list.len() > MAX_SCRIPT_SEGMENTS {
        return Err(unverifiable_script());
    }
    let mut narration: Vec<char> = Vec::new();
    let mut segments: Vec<CaptionScriptSegment> = Vec::new();
    let mut i: usize = 0;
    while i < list.len()
        invariant
            0 <= i <= list@.len() <= MAX_SCRIPT_SEGMENTS,
            artifact_view == pairs_view(artifact@),
            segments_refusal(list@, artifact_view, i as int) is None,
            narration@ == joined_narration(list@, i as int),
            narration@.len() <= i * MAX_SEGMENT_NARRATION_CHARS,
            segments@.len() == i,
            forall|j: int|
                0 <= j < i ==> {
                    let segment = #[trigger] segments@[j];
                    &&& segment.start == joined_narration(list@, j).len()
                    &&& segment.end == joined_narration(list@, j + 1).len()
                    &&& pairs_view(segment.provenance@) == field_pairs(list@[j].provenance)
                },
        decreases list@.len() - i,
    {
        let checked = check_segment(&list[i], i, artifact.as_slice());
        let (mut normalized, pairs) = match checked {
            Ok(found) => found,
            Err(error) => {
                proof {
                    lemma_segments_refusal_stays(list@, artifact_view, i + 1, list@.len() as int);
                }
                return Err(error);
            },
        };
        let start = narration.len();
        narration.append(&mut normalized);
        let end = narration.len();
        segments.push(CaptionScriptSegment { start, end, provenance: pairs });
        assert(narration@ =~= joined_narration(list@, i + 1));
        i = i + 1;
    }
    if !artifact_used(artifact.as_slice(), segments.as_slice()) {
        proof {
            let a = choose|a: int|
                0 <= a < artifact@.len() && !pair_carried(segments@, #[trigger] pairs_view(artifact@)[a]);
            if artifact_pairs_used(list@, artifact_view) {
                assert(artifact_view[a] == pairs_view(artifact@)[a]);
                assert(pair_used_by(list@, artifact_view[a]));
                let i = choose|i: int|
                    0 <= i < list@.len() && #[trigger] field_pairs(list@[i].provenance).contains(
                        artifact_view[a],
                    );
                assert(pairs_view(segments@[i].provenance@).contains(artifact_view[a]));
                assert(pair_carried(segments@, pairs_view(artifact@)[a]));
            }
        }
        return Err(unverifiable_script());
    }
    proof {
        assert forall|a: int| 0 <= a < artifact_view.len() implies pair_used_by(
            list@,
            #[trigger] artifact_view[a],
        ) by {
            assert(pairs_view(artifact@)[a] == artifact_view[a]);
            assert(pair_carried(segments@, pairs_view(artifact@)[a]));
            let i = choose|i: int|
                0 <= i < segments@.len() && #[trigger] pairs_view(segments@[i].provenance@).contains(
                    artifact_view[a],
                );
            assert(field_pairs(list@[i].provenance).contains(artifact_view[a]));
        }
    }
    Ok(CaptionScriptTraceability { normalized_narration: narration, segments })
}

} // verus!
