use vstd::prelude::*;

use crate::media_error::{plain_media_error, MediaErrorCode, MediaOperation, MediaServiceError};
use crate::storage_rules::{decimal, push_decimal};
use crate::text::{normalize_caption_trace_text, same_text, strip_whitespace};

verus! {

/// One claim and the evidence that supports it.
#[derive(Debug, Clone, PartialEq, Eq)]
pub struct CaptionProvenancePair {
    pub claim_id: String,
    pub evidence_ref: String,
}

/// A script segment: its span in the normalized narration and its provenance.
#[derive(Debug, Clone, PartialEq, Eq)]
pub struct CaptionScriptSegment {
    pub start: usize,
    pub end: usize,
    pub provenance: Vec<CaptionProvenancePair>,
}

/// The approved script as captions are traced back to it: the narration
/// without whitespace, and its segments.
#[derive(Debug, Clone, PartialEq, Eq)]
pub struct CaptionScriptTraceability {
    pub normalized_narration: Vec<char>,
    pub segments: Vec<CaptionScriptSegment>,
}

/// A caption cue as parsed from an SRT file.
#[derive(Debug, Clone, PartialEq, Eq)]
pub struct ParsedCaptionCue {
    pub cue_id: String,
    pub source_index: u64,
    pub start_ms: u64,
    pub end_ms: u64,
    pub text: String,
}

/// The texts of a provenance pair.
pub open spec fn pair_view(pair: CaptionProvenancePair) -> (Seq<char>, Seq<char>) {
    (pair.claim_id@, pair.evidence_ref@)
}

/// The texts of provenance pairs.
pub open spec fn pairs_view(pairs: Seq<CaptionProvenancePair>) -> Seq<(Seq<char>, Seq<char>)> {
    pairs.map_values(|p: CaptionProvenancePair| pair_view(p))
}

/// `acc` followed by the entries of `more` it does not hold yet, each once,
/// in order of first appearance.
pub open spec fn union_in_order<A>(acc: Seq<A>, more: Seq<A>) -> Seq<A>
    decreases more.len(),
{
    if more.len() == 0 {
        acc
    } else {
        let before = union_in_order(acc, more.drop_last());
        if before.contains(more.last()) {
            before
        } else {
            before.push(more.last())
        }
    }
}

/// `a - b`, or 0 when `b` is larger.
pub open spec fn saturating_difference(a: int, b: int) -> int {
    if a >= b {
        a - b
    } else {
        0
    }
}

/// `needle` occurs in `hay` at `start`.
pub open spec fn occurs_at(hay: Seq<char>, needle: Seq<char>, start: int) -> bool {
    0 <= start && start + needle.len() <= hay.len() && hay.subrange(start, start + needle.len())
        == needle
}

/// `start` is a place from `cursor` on where `needle` occurs, among the
/// places the search visits.
pub open spec fn match_candidate(hay: Seq<char>, needle: Seq<char>, cursor: int, start: int) -> bool {
    cursor <= start <= saturating_difference(hay.len() as int, needle.len() as int) && occurs_at(
        hay,
        needle,
        start,
    )
}

/// The provenance of the segments that overlap `[start, end)`, each pair
/// once, in segment order.
pub open spec fn overlap_provenance(segments: Seq<CaptionScriptSegment>, start: int, end: int) -> Seq<
    (Seq<char>, Seq<char>),
>
    decreases segments.len(),
{
    if segments.len() == 0 {
        Seq::empty()
    } else {
        let before = overlap_provenance(segments.drop_last(), start, end);
        let segment = segments.last();
        if segment.start < end && segment.end > start {
            union_in_order(before, pairs_view(segment.provenance@))
        } else {
            before
        }
    }
}

/// The message for a cue that cannot be traced back to the script.
pub open spec fn unmappable_message(cue: ParsedCaptionCue) -> Seq<char> {
    "captions_provenance_unmappable sourceIndex="@ + decimal(cue.source_index as nat) + " cueId="@
        + cue.cue_id@
}

/// The error for a cue that cannot be traced back to the script.
pub fn unmappable_caption_cue(cue: &ParsedCaptionCue) -> (error: MediaServiceError)
    ensures
        plain_media_error(
            error,
            MediaErrorCode::InputReferenceMismatch,
            MediaOperation::ImportCaptions,
            unmappable_message(*cue),
        ),
{
    let mut message = String::from_str("captions_provenance_unmappable sourceIndex=");
    push_decimal(&mut message, cue.source_index);
    message.append(" cueId=");
    message.append(cue.cue_id.as_str());
    MediaServiceError {
        code: MediaErrorCode::InputReferenceMismatch,
        operation: MediaOperation::ImportCaptions,
        message,
        project_id: None,
        stage_id: None,
        run_id: None,
        artifact_id: None,
    }
}

/// Whether `needle` occurs in `hay` at `start`.
pub fn occurs_at_exec(hay: &[char], needle: &[char], start: usize) -> (result: bool)
    ensures
        result == occurs_at(hay@, needle@, start as int),
{
    if start > hay.len() || needle.len() > hay.len() - start {
        return false;
    }
    let mut i: usize = 0;
    while i < needle.len()
        invariant
            start + needle@.len() <= hay@.len(),
            hay@.len() <= usize::MAX,
            0 <= i <= needle@.len(),
            forall|j: int| 0 <= j < i ==> hay@[start + j] == needle@[j],
        decreases needle@.len() - i,
    {
        assert(start + i < hay@.len());
        if hay[start + i] != needle[i] {
            assert(hay@.subrange(start as int, start + needle@.len())[i as int] != needle@[i as int]);
            return false;
        }
        i = i + 1;
    }
    assert(hay@.subrange(start as int, start + needle@.len()) =~= needle@);
    true
}

/// Whether two provenance pairs hold the same texts.
pub fn same_pair(a: &CaptionProvenancePair, b: &CaptionProvenancePair) -> (result: bool)
    ensures
        result == (pair_view(*a) == pair_view(*b)),
{
    same_text(a.claim_id.as_str(), b.claim_id.as_str()) && same_text(
        a.evidence_ref.as_str(),
        b.evidence_ref.as_str(),
    )
}

/// Appends to `pairs` the entries of `more` it does not hold yet.
pub fn extend_unique(pairs: &mut Vec<CaptionProvenancePair>, more: &[CaptionProvenancePair])
    ensures
        pairs_view(final(pairs)@) == union_in_order(pairs_view(old(pairs)@), pairs_view(more@)),
{
    let ghost start = pairs_view(pairs@);
    let mut k: usize = 0;
    while k < more.len()
        invariant
            0 <= k <= more@.len(),
            pairs_view(pairs@) == union_in_order(start, pairs_view(more@.take(k as int))),
        decreases more@.len() - k,
    {
        let candidate = &more[k];
        let ghost before = pairs_view(pairs@);
        let mut present = false;
        let mut q: usize = 0;
        while q < pairs.len()
            invariant
                before == pairs_view(pairs@),
                0 <= q <= pairs@.len(),
                present == exists|j: int| 0 <= j < q && before[j] == pair_view(*candidate),
            decreases pairs@.len() - q,
        {
            assert(before[q as int] == pair_view(pairs@[q as int]));
            if same_pair(&pairs[q], candidate) {
                present = true;
            }
            q = q + 1;
        }
        assert(pairs_view(more@.take(k + 1)).drop_last() =~= pairs_view(more@.take(k as int)));
        assert(pairs_view(more@.take(k + 1)).last() == pair_view(*candidate));
        if !present {
            pairs.push(
                CaptionProvenancePair {
                    claim_id: candidate.claim_id.clone(),
                    evidence_ref: candidate.evidence_ref.clone(),
                },
            );
            assert(pairs_view(pairs@) =~= before.push(pair_view(*candidate)));
        } else {
            assert(before.contains(pair_view(*candidate)));
        }
        k = k + 1;
    }
    assert(more@.take(more@.len() as int) =~= more@);
}

/// What tracing `cue` from `cursor` yields: the cue's provenance and the
/// cursor after it, or `None` when the cue cannot be traced (its text without
/// whitespace does not occur exactly once among the places searched, or its
/// span overlaps no provenance). With no segments there is nothing to trace.
pub open spec fn cue_trace(
    traceability: CaptionScriptTraceability,
    cue: ParsedCaptionCue,
    cursor: int,
) -> Option<(Seq<(Seq<char>, Seq<char>)>, int)> {
    let hay = traceability.normalized_narration@;
    let needle = strip_whitespace(cue.text@);
    let unique = (exists|s: int| match_candidate(hay, needle, cursor, s)) && forall|s: int, t: int|
        match_candidate(hay, needle, cursor, s) && match_candidate(hay, needle, cursor, t) ==> s == t;
    let s = choose|s: int| match_candidate(hay, needle, cursor, s);
    let pairs = overlap_provenance(traceability.segments@, s, s + needle.len());
    if traceability.segments@.len() == 0 {
        Some((Seq::empty(), cursor))
    } else if unique && pairs.len() > 0 {
        Some((pairs, s + needle.len()))
    } else {
        None
    }
}

/// Traces a caption cue back to the script: its text without whitespace must
/// occur exactly once in the narration at or after `cursor` (among the places
/// from `cursor` to the narration's length less the text's), and the cue
/// carries the provenance of every segment that span overlaps. The cursor
/// then moves to the end of the span. With no segments there is nothing to
/// trace.
pub fn cue_provenance(
    traceability: &CaptionScriptTraceability,
    cue: &ParsedCaptionCue,
    cursor: &mut usize,
) -> (result: Result<Vec<CaptionProvenancePair>, MediaServiceError>)
    ensures
        match cue_trace(*traceability, *cue, *old(cursor) as int) {
            Some((pairs_spec, next)) => {
                &&& result matches Ok(pairs)
                &&& pairs_view(pairs@) == pairs_spec
                &&& *final(cursor) as int == next
            },
            None => {
                &&& result matches Err(error)
                &&& plain_media_error(
                    error,
                    MediaErrorCode::InputReferenceMismatch,
                    MediaOperation::ImportCaptions,
                    unmappable_message(*cue),
                )
                &&& *final(cursor) == *old(cursor)
            },
        },
{
    if traceability.segments.len() == 0 {
        return Ok(Vec::new());
    }
    let hay = &traceability.normalized_narration;
    let needle = normalize_caption_trace_text(cue.text.as_str());
    let ghost c = *cursor as int;
    let last_start: usize = if hay.len() >= needle.len() {
        hay.len() - needle.len()
    } else {
        0
    };
    let mut match_start: Option<usize> = None;
    let mut start: usize = *cursor;
    if start <= last_start {
        loop
            invariant_except_break
                hay@ == traceability.normalized_narration@,
                c == *cursor as int,
                c == *old(cursor) as int,
                traceability.segments@.len() > 0,
                needle@ == strip_whitespace(cue.text@),
                last_start as int == saturating_difference(hay@.len() as int, needle@.len() as int),
                c <= start <= last_start,
                match match_start {
                    Some(m) => match_candidate(hay@, needle@, c, m as int) && m < start && forall|t: int|
                        c <= t < start && match_candidate(hay@, needle@, c, t) ==> t == m,
                    None => forall|t: int| c <= t < start ==> !match_candidate(hay@, needle@, c, t),
                },
            ensures
                hay@ == traceability.normalized_narration@,
                c == *cursor as int,
                match match_start {
                    Some(m) => match_candidate(hay@, needle@, c, m as int) && forall|t: int|
                        match_candidate(hay@, needle@, c, t) ==> t == m,
                    None => forall|t: int| !match_candidate(hay@, needle@, c, t),
                },
            decreases last_start - start,
        {
            if occurs_at_exec(hay.as_slice(), needle.as_slice(), start) {
                if let Some(m) = match_start {
                    assert(match_candidate(hay@, needle@, c, m as int));
                    assert(match_candidate(hay@, needle@, c, start as int));
                    return Err(unmappable_caption_cue(cue));
                }
                match_start = Some(start);
            }
            if start == last_start {
                break;
            }
            start = start + 1;
        }
    }
    let found = match match_start {
        Some(m) => m,
        None => {
            return Err(unmappable_caption_cue(cue));
        },
    };
    proof {
        let s = choose|s: int| match_candidate(hay@, needle@, c, s);
        assert(match_candidate(hay@, needle@, c, found as int));
        assert(s == found);
    }
    let end = found + needle.len();
    let segments = &traceability.segments;
    let mut pairs: Vec<CaptionProvenancePair> = Vec::new();
    let mut i: usize = 0;
    while i < segments.len()
        invariant
            0 <= i <= segments@.len(),
            end == found + needle@.len(),
            pairs_view(pairs@) == overlap_provenance(segments@.take(i as int), found as int, end as int),
        decreases segments@.len() - i,
    {
        let segment = &segments[i];
        assert(segments@.take(i + 1).drop_last() =~= segments@.take(i as int));
        if segment.start < end && segment.end > found {
            extend_unique(&mut pairs, segment.provenance.as_slice());
        }
        i = i + 1;
    }
    assert(segments@.take(segments@.len() as int) =~= segments@);
    if pairs.len() == 0 {
        return Err(unmappable_caption_cue(cue));
    }
    *cursor = end;
    Ok(pairs)
}

/// The claim identifiers and the evidence references of `pairs`, each once,
/// in order of first appearance.
pub fn caption_provenance_projection(pairs: &[CaptionProvenancePair]) -> (projection: (
    Vec<String>,
    Vec<String>,
))
    ensures
        projection.0@.map_values(|s: String| s@) == union_in_order(
            Seq::<Seq<char>>::empty(),
            pairs_view(pairs@).map_values(|p: (Seq<char>, Seq<char>)| p.0),
        ),
        projection.1@.map_values(|s: String| s@) == union_in_order(
            Seq::<Seq<char>>::empty(),
            pairs_view(pairs@).map_values(|p: (Seq<char>, Seq<char>)| p.1),
        ),
{
    let ghost claims_all = pairs_view(pairs@).map_values(|p: (Seq<char>, Seq<char>)| p.0);
    let ghost evidence_all = pairs_view(pairs@).map_values(|p: (Seq<char>, Seq<char>)| p.1);
    let mut claims: Vec<String> = Vec::new();
    let mut evidence: Vec<String> = Vec::new();
    let mut k: usize = 0;
    while k < pairs.len()
        invariant
            0 <= k <= pairs@.len(),
            claims_all == pairs_view(pairs@).map_values(|p: (Seq<char>, Seq<char>)| p.0),
            evidence_all == pairs_view(pairs@).map_values(|p: (Seq<char>, Seq<char>)| p.1),
            claims@.map_values(|s: String| s@) == union_in_order(
                Seq::<Seq<char>>::empty(),
                claims_all.take(k as int),
            ),
            evidence@.map_values(|s: String| s@) == union_in_order(
                Seq::<Seq<char>>::empty(),
                evidence_all.take(k as int),
            ),
        decreases pairs@.len() - k,
    {
        assert(claims_all.take(k + 1).drop_last() =~= claims_all.take(k as int));
        assert(evidence_all.take(k + 1).drop_last() =~= evidence_all.take(k as int));
        assert(claims_all.take(k + 1).last() == pairs@[k as int].claim_id@);
        assert(evidence_all.take(k + 1).last() == pairs@[k as int].evidence_ref@);
        push_unique_text(&mut claims, pairs[k].claim_id.as_str());
        push_unique_text(&mut evidence, pairs[k].evidence_ref.as_str());
        k = k + 1;
    }
    assert(claims_all.take(pairs@.len() as int) =~= claims_all);
    assert(evidence_all.take(pairs@.len() as int) =~= evidence_all);
    (claims, evidence)
}

/// Appends `value` to `values` unless it is there already.
pub fn push_unique_text(values: &mut Vec<String>, value: &str)
    ensures
        final(values)@.map_values(|s: String| s@) == if old(values)@.map_values(|s: String| s@).contains(
            value@,
        ) {
            old(values)@.map_values(|s: String| s@)
        } else {
            old(values)@.map_values(|s: String| s@).push(value@)
        },
{
    let ghost before = values@.map_values(|s: String| s@);
    let mut q: usize = 0;
    while q < values.len()
        invariant
            before == values@.map_values(|s: String| s@),
            0 <= q <= values@.len(),
            forall|j: int| 0 <= j < q ==> before[j] != value@,
        decreases values@.len() - q,
    {
        if same_text(values[q].as_str(), value) {
            assert(before[q as int] == value@);
            return;
        }
        q = q + 1;
    }
    values.push(value.to_owned());
    assert(values@.map_values(|s: String| s@) =~= before.push(value@));
}

} // verus!
