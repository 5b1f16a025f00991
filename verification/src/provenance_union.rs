use vstd::prelude::*;

use crate::caption_script::{bounded_field, entry_pair, ScriptProvenanceEntry, ScriptProvenanceField};
use crate::caption_trace::{pair_view, pairs_view, same_pair, CaptionProvenancePair};
use crate::media_error::{plain_media_error, MediaErrorCode, MediaOperation, MediaServiceError};
use crate::ordered_set::{
    lemma_text_less_irreflexive, lemma_text_less_total, lemma_text_less_transitive, text_less,
    text_sorts_before,
};
use crate::text::{same_text, valid_bounded_text};

verus! {

/// The most distinct provenance pairs the approved inputs of a document may carry.
pub const MAX_APPROVED_PROVENANCE_PAIRS: usize = 4096;

/// `a` sorts strictly before `b`: by claim, then by evidence.
pub open spec fn pair_less(a: (Seq<char>, Seq<char>), b: (Seq<char>, Seq<char>)) -> bool {
    text_less(a.0, b.0) || (a.0 == b.0 && text_less(a.1, b.1))
}

/// Every pair sorts strictly before every later pair.
pub open spec fn pairs_ascending(s: Seq<(Seq<char>, Seq<char>)>) -> bool {
    forall|i: int, j: int| 0 <= i < j < s.len() ==> pair_less(#[trigger] s[i], #[trigger] s[j])
}

proof fn lemma_pair_less_facts(a: (Seq<char>, Seq<char>), b: (Seq<char>, Seq<char>))
    ensures
        !pair_less(a, a),
        a != b ==> pair_less(a, b) || pair_less(b, a),
        !(pair_less(a, b) && pair_less(b, a)),
{
    lemma_text_less_irreflexive(a.0);
    lemma_text_less_irreflexive(a.1);
    lemma_text_less_total(a.0, b.0);
    lemma_text_less_total(a.1, b.1);
    lemma_text_less_irreflexive(b.0);
    if a.0 == b.0 && a.1 == b.1 {
        assert(a == b);
    }
}

proof fn lemma_pair_less_transitive(
    a: (Seq<char>, Seq<char>),
    b: (Seq<char>, Seq<char>),
    c: (Seq<char>, Seq<char>),
)
    requires
        pair_less(a, b),
        pair_less(b, c),
    ensures
        pair_less(a, c),
{
    if text_less(a.0, b.0) && text_less(b.0, c.0) {
        lemma_text_less_transitive(a.0, b.0, c.0);
    } else if text_less(a.1, b.1) && text_less(b.1, c.1) {
        lemma_text_less_transitive(a.1, b.1, c.1);
    }
}

/// Ascending pairs hold no pair twice, so they are as many as their set.
proof fn lemma_ascending_pairs_len(s: Seq<(Seq<char>, Seq<char>)>)
    requires
        pairs_ascending(s),
    ensures
        s.no_duplicates(),
        s.to_set().len() == s.len(),
{
    assert forall|i: int, j: int| 0 <= i < s.len() && 0 <= j < s.len() && i != j implies s[i] != s[j] by {
        if i < j {
            lemma_pair_less_facts(s[i], s[j]);
        } else {
            lemma_pair_less_facts(s[j], s[i]);
        }
    }
    s.unique_seq_to_set();
}

/// Whether `a` sorts strictly before `b`.
fn pair_sorts_before(a: &CaptionProvenancePair, b: &CaptionProvenancePair) -> (result: bool)
    ensures
        result == pair_less(pair_view(*a), pair_view(*b)),
{
    text_sorts_before(a.claim_id.as_str(), b.claim_id.as_str()) || (same_text(
        a.claim_id.as_str(),
        b.claim_id.as_str(),
    ) && text_sorts_before(a.evidence_ref.as_str(), b.evidence_ref.as_str()))
}

/// Adds a pair to ascending pairs, keeping them ascending (nothing changes
/// when the pair is already there).
pub fn insert_sorted_pair(set: &mut Vec<CaptionProvenancePair>, pair: CaptionProvenancePair)
    requires
        pairs_ascending(pairs_view(old(set)@)),
    ensures
        pairs_ascending(pairs_view(final(set)@)),
        pairs_view(final(set)@).to_set() == pairs_view(old(set)@).to_set().insert(pair_view(pair)),
{
    let ghost before = pairs_view(set@);
    let ghost p = pair_view(pair);
    let mut i: usize = 0;
    while i < set.len() && pair_sorts_before(&set[i], &pair)
        invariant
            before == pairs_view(set@),
            p == pair_view(pair),
            0 <= i <= set@.len(),
            forall|j: int| 0 <= j < i ==> pair_less(#[trigger] before[j], p),
        decreases set@.len() - i,
    {
        i = i + 1;
    }
    if i < set.len() && same_pair(&set[i], &pair) {
        assert(before[i as int] == p);
        assert(before.to_set().insert(p) =~= before.to_set());
        return;
    }
    set.insert(i, pair);
    let ghost after = pairs_view(set@);
    assert(after =~= before.insert(i as int, p));
    assert forall|a: int, b: int| 0 <= a < b < after.len() implies pair_less(
        #[trigger] after[a],
        #[trigger] after[b],
    ) by {
        if i < before.len() {
            lemma_pair_less_facts(before[i as int], p);
        }
        if b < i {
        } else if a < i && b == i {
        } else if a < i && b > i {
            lemma_pair_less_facts(before[i as int], p);
            assert(pair_less(before[a], p));
            assert(pair_less(p, before[i as int]));
            if b - 1 > i {
                assert(pair_less(before[i as int], before[b - 1]));
                lemma_pair_less_transitive(p, before[i as int], before[b - 1]);
            }
            lemma_pair_less_transitive(before[a], p, before[b - 1]);
        } else if a == i {
            lemma_pair_less_facts(before[i as int], p);
            if b - 1 > i {
                assert(pair_less(before[i as int], before[b - 1]));
                lemma_pair_less_transitive(p, before[i as int], before[b - 1]);
            }
        } else {
            assert(pair_less(before[a - 1], before[b - 1]));
        }
    }
    assert forall|x: (Seq<char>, Seq<char>)| after.to_set().contains(x) <==> before.to_set().insert(
        p,
    ).contains(x) by {
        if after.to_set().contains(x) {
            let k = choose|k: int| 0 <= k < after.len() && after[k] == x;
            if k < i {
                assert(before[k] == x);
            } else if k > i {
                assert(before[k - 1] == x);
            }
        }
        if before.to_set().contains(x) {
            let k = choose|k: int| 0 <= k < before.len() && before[k] == x;
            if k < i {
                assert(after[k] == x);
            } else {
                assert(after[k + 1] == x);
            }
        }
        if x == p {
            assert(after[i as int] == x);
        }
    }
    assert(after.to_set() =~= before.to_set().insert(p));
}

/// The refusal of an approved artifact without a provenance array.
pub open spec fn missing_provenance() -> (MediaErrorCode, Seq<char>) {
    (MediaErrorCode::InputReferenceMismatch, "批准 Artifact 缺少可验证的 provenance 配对。"@)
}

/// Adds the first `m` entries to the pairs in `start`, refusing an entry
/// without an acceptable claim or evidence, and a union that grows past its
/// limit.
pub open spec fn entries_union(
    start: Set<(Seq<char>, Seq<char>)>,
    entries: Seq<ScriptProvenanceEntry>,
    m: int,
) -> Result<Set<(Seq<char>, Seq<char>)>, (MediaErrorCode, Seq<char>)>
    decreases m,
{
    if m <= 0 {
        Ok(start)
    } else {
        match entries_union(start, entries, m - 1) {
            Err(refusal) => Err(refusal),
            Ok(set) => {
                let entry = entries[m - 1];
                if !bounded_field(entry.claim_id) {
                    Err((MediaErrorCode::InputReferenceMismatch, "批准 Artifact 包含无效的 claim provenance。"@))
                } else if !bounded_field(entry.evidence_ref) {
                    Err((MediaErrorCode::InputReferenceMismatch, "批准 Artifact 包含无效的 evidence provenance。"@))
                } else if set.insert(entry_pair(entry)).len() > MAX_APPROVED_PROVENANCE_PAIRS {
                    Err((MediaErrorCode::ResourceLimitExceeded, "批准 Artifact provenance 超过安全上限。"@))
                } else {
                    Ok(set.insert(entry_pair(entry)))
                }
            },
        }
    }
}

/// The union of the provenance pairs of the first `n` approved artifacts, or
/// the first refusal in reading them in order.
pub open spec fn artifacts_union(artifacts: Seq<ScriptProvenanceField>, n: int) -> Result<
    Set<(Seq<char>, Seq<char>)>,
    (MediaErrorCode, Seq<char>),
>
    decreases n,
{
    if n <= 0 {
        Ok(Set::empty())
    } else {
        match artifacts_union(artifacts, n - 1) {
            Err(refusal) => Err(refusal),
            Ok(set) => match artifacts[n - 1] {
                ScriptProvenanceField::Entries(entries) => entries_union(set, entries@, entries@.len() as int),
                _ => Err(missing_provenance()),
            },
        }
    }
}

proof fn lemma_entries_union_stays(
    start: Set<(Seq<char>, Seq<char>)>,
    entries: Seq<ScriptProvenanceEntry>,
    m: int,
    n: int,
)
    requires
        m <= n,
        entries_union(start, entries, m) is Err,
    ensures
        entries_union(start, entries, n) == entries_union(start, entries, m),
    decreases n - m,
{
    if m < n {
        lemma_entries_union_stays(start, entries, m, n - 1);
    }
}

proof fn lemma_artifacts_union_stays(artifacts: Seq<ScriptProvenanceField>, m: int, n: int)
    requires
        m <= n,
        artifacts_union(artifacts, m) is Err,
    ensures
        artifacts_union(artifacts, n) == artifacts_union(artifacts, m),
    decreases n - m,
{
    if m < n {
        lemma_artifacts_union_stays(artifacts, m, n - 1);
    }
}

fn union_error(code: MediaErrorCode, operation: MediaOperation, message: &str) -> (error: MediaServiceError)
    ensures
        plain_media_error(error, code, operation, message@),
{
    MediaServiceError::new(code, operation, message)
}

/// The union of the provenance pairs of approved artifacts, ascending by
/// claim and then evidence, read in order: an artifact without a provenance
/// array, an entry without an acceptable claim or evidence, or more than 4096
/// distinct pairs refuse it.
pub fn exact_artifact_provenance_union(
    artifacts: &[ScriptProvenanceField],
    operation: MediaOperation,
) -> (result: Result<Vec<CaptionProvenancePair>, MediaServiceError>)
    ensures
        match artifacts_union(artifacts@, artifacts@.len() as int) {
            Ok(set) => result matches Ok(pairs) && pairs_ascending(pairs_view(pairs@))
                && pairs_view(pairs@).to_set() == set,
            Err((code, message)) => result matches Err(error) && plain_media_error(
                error,
                code,
                operation,
                message,
            ),
        },
{
    let mut pairs: Vec<CaptionProvenancePair> = Vec::new();
    let mut i: usize = 0;
    assert(pairs_view(pairs@).to_set() =~= Set::empty());
    while i < artifacts.len()
        invariant
            0 <= i <= artifacts@.len(),
            pairs_ascending(pairs_view(pairs@)),
            pairs@.len() <= MAX_APPROVED_PROVENANCE_PAIRS,
            artifacts_union(artifacts@, i as int) == Ok::<
                Set<(Seq<char>, Seq<char>)>,
                (MediaErrorCode, Seq<char>),
            >(pairs_view(pairs@).to_set()),
        decreases artifacts@.len() - i,
    {
        proof {
            reveal_strlit("批准 Artifact 缺少可验证的 provenance 配对。");
        }
        let entries = match &artifacts[i] {
            ScriptProvenanceField::Entries(entries) => entries,
            _ => {
                proof {
                    lemma_artifacts_union_stays(artifacts@, i + 1, artifacts@.len() as int);
                }
                return Err(
                    union_error(
                        MediaErrorCode::InputReferenceMismatch,
                        operation,
                        "批准 Artifact 缺少可验证的 provenance 配对。",
                    ),
                );
            },
        };
        let ghost start = pairs_view(pairs@).to_set();
        let mut j: usize = 0;
        while j < entries.len()
            invariant
                0 <= i < artifacts@.len(),
                artifacts@[i as int] == ScriptProvenanceField::Entries(*entries),
                artifacts_union(artifacts@, i as int) == Ok::<
                    Set<(Seq<char>, Seq<char>)>,
                    (MediaErrorCode, Seq<char>),
                >(start),
                0 <= j <= entries@.len(),
                pairs_ascending(pairs_view(pairs@)),
                pairs@.len() <= MAX_APPROVED_PROVENANCE_PAIRS,
                entries_union(start, entries@, j as int) == Ok::<
                    Set<(Seq<char>, Seq<char>)>,
                    (MediaErrorCode, Seq<char>),
                >(pairs_view(pairs@).to_set()),
            decreases entries@.len() - j,
        {
            proof {
                reveal_strlit("批准 Artifact 包含无效的 claim provenance。");
                reveal_strlit("批准 Artifact 包含无效的 evidence provenance。");
                reveal_strlit("批准 Artifact provenance 超过安全上限。");
            }
            let entry = &entries[j];
            let claim = match &entry.claim_id {
                Some(claim) => claim,
                None => {
                    proof {
                        lemma_entries_union_stays(start, entries@, j + 1, entries@.len() as int);
                        lemma_artifacts_union_stays(artifacts@, i + 1, artifacts@.len() as int);
                    }
                    return Err(
                        union_error(
                            MediaErrorCode::InputReferenceMismatch,
                            operation,
                            "批准 Artifact 包含无效的 claim provenance。",
                        ),
                    );
                },
            };
            if !valid_bounded_text(claim.as_str(), 512, false) {
                proof {
                    lemma_entries_union_stays(start, entries@, j + 1, entries@.len() as int);
                    lemma_artifacts_union_stays(artifacts@, i + 1, artifacts@.len() as int);
                }
                return Err(
                    union_error(
                        MediaErrorCode::InputReferenceMismatch,
                        operation,
                        "批准 Artifact 包含无效的 claim provenance。",
                    ),
                );
            }
            let evidence = match &entry.evidence_ref {
                Some(evidence) => evidence,
                None => {
                    proof {
                        lemma_entries_union_stays(start, entries@, j + 1, entries@.len() as int);
                        lemma_artifacts_union_stays(artifacts@, i + 1, artifacts@.len() as int);
                    }
                    return Err(
                        union_error(
                            MediaErrorCode::InputReferenceMismatch,
                            operation,
                            "批准 Artifact 包含无效的 evidence provenance。",
                        ),
                    );
                },
            };
            if !valid_bounded_text(evidence.as_str(), 512, false) {
                proof {
                    lemma_entries_union_stays(start, entries@, j + 1, entries@.len() as int);
                    lemma_artifacts_union_stays(artifacts@, i + 1, artifacts@.len() as int);
                }
                return Err(
                    union_error(
                        MediaErrorCode::InputReferenceMismatch,
                        operation,
                        "批准 Artifact 包含无效的 evidence provenance。",
                    ),
                );
            }
            let pair = CaptionProvenancePair { claim_id: claim.clone(), evidence_ref: evidence.clone() };
            assert(pair_view(pair) == entry_pair(*entry));
            insert_sorted_pair(&mut pairs, pair);
            proof {
                lemma_ascending_pairs_len(pairs_view(pairs@));
            }
            if pairs.len() > MAX_APPROVED_PROVENANCE_PAIRS {
                proof {
                    lemma_entries_union_stays(start, entries@, j + 1, entries@.len() as int);
                    lemma_artifacts_union_stays(artifacts@, i + 1, artifacts@.len() as int);
                }
                return Err(
                    union_error(
                        MediaErrorCode::ResourceLimitExceeded,
                        operation,
                        "批准 Artifact provenance 超过安全上限。",
                    ),
                );
            }
            j = j + 1;
        }
        i = i + 1;
    }
    Ok(pairs)
}

} // verus!
