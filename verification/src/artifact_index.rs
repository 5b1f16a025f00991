use vstd::prelude::*;

use crate::artifact_graph::{graph_view, is_acyclic, is_topological_rank, references_acyclic};
use crate::identifiers::{artifact_ref_is_valid, artifact_ref_spec};
use crate::storage_error::{opt_view, StorageErrorCode, StorageOperation, StorageServiceError};

verus! {

/// The most reference edges one synchronous index rebuild checks.
pub const MAX_INDEXED_REFERENCE_EDGES: usize = 65536;

/// One artifact as the project index records it.
pub struct ArtifactIndexRow {
    pub artifact_id: String,
    pub document_project_id: String,
    pub stage_id: String,
    pub run_id: String,
    pub kind: String,
    pub media_type: Option<String>,
    pub evidence_role: String,
    pub origin: String,
    pub content_hash: String,
    pub byte_length: u64,
    pub metadata_uri: String,
    pub content_uri: String,
    pub content_available: bool,
    pub created_at: String,
    pub reference_ids: Vec<String>,
}

/// No two rows carry the same artifact identifier.
pub open spec fn row_ids_distinct(rows: Seq<ArtifactIndexRow>) -> bool {
    forall|i: int, j: int|
        0 <= i < rows.len() && 0 <= j < rows.len() && i != j ==> rows[i].artifact_id@
            != rows[j].artifact_id@
}

/// The `k`-th reference of row `i`.
pub open spec fn reference_text(rows: Seq<ArtifactIndexRow>, i: int, k: int) -> Seq<char> {
    rows[i].reference_ids@[k]@
}

/// Whether `(i, k)` names a reference of the rows.
pub open spec fn is_reference(rows: Seq<ArtifactIndexRow>, i: int, k: int) -> bool {
    0 <= i < rows.len() && 0 <= k < rows[i].reference_ids@.len()
}

/// Row `j` carries the identifier `id`.
pub open spec fn names_row(rows: Seq<ArtifactIndexRow>, id: Seq<char>, j: int) -> bool {
    0 <= j < rows.len() && rows[j].artifact_id@ == id
}

/// What is wrong with a reference, if anything: not an artifact identifier,
/// naming no row, or naming a row whose content is missing.
pub open spec fn reference_fault(rows: Seq<ArtifactIndexRow>, id: Seq<char>) -> Option<
    StorageErrorCode,
> {
    if !artifact_ref_spec(id) {
        Some(StorageErrorCode::InvalidArtifact)
    } else if !(exists|j: int| names_row(rows, id, j)) {
        Some(StorageErrorCode::ArtifactNotFound)
    } else if exists|j: int| names_row(rows, id, j) && !rows[j].content_available {
        Some(StorageErrorCode::ContentCorrupt)
    } else {
        None
    }
}

/// Every reference is sound.
pub open spec fn all_references_sound(rows: Seq<ArtifactIndexRow>) -> bool {
    forall|i: int, k: int|
        is_reference(rows, i, k) ==> #[trigger] reference_fault(rows, reference_text(rows, i, k))
            is None
}

/// `(i, k)` is the first unsound reference, rows in order and references in
/// order within a row.
pub open spec fn is_first_fault(rows: Seq<ArtifactIndexRow>, i: int, k: int) -> bool {
    &&& is_reference(rows, i, k)
    &&& reference_fault(rows, reference_text(rows, i, k)) is Some
    &&& forall|i2: int, k2: int|
        is_reference(rows, i2, k2) && (i2 < i || (i2 == i && k2 < k)) ==> #[trigger] reference_fault(
            rows,
            reference_text(rows, i2, k2),
        ) is None
}

/// The number of reference edges of the rows.
pub open spec fn reference_edge_count(rows: Seq<ArtifactIndexRow>) -> int
    decreases rows.len(),
{
    if rows.len() == 0 {
        0
    } else {
        reference_edge_count(rows.drop_last()) + rows.last().reference_ids@.len()
    }
}

/// `rank` places every referenced row strictly before the row that refers to it.
pub open spec fn is_reference_rank(rows: Seq<ArtifactIndexRow>, rank: Seq<nat>) -> bool {
    &&& rank.len() == rows.len()
    &&& forall|i: int, k: int, j: int|
        is_reference(rows, i, k) && #[trigger] names_row(rows, reference_text(rows, i, k), j)
            ==> rank[j] < rank[i]
}

/// The reference graph of the rows has no cycle.
pub open spec fn references_form_no_cycle(rows: Seq<ArtifactIndexRow>) -> bool {
    exists|rank: Seq<nat>| is_reference_rank(rows, rank)
}

proof fn lemma_edge_count_prefix(rows: Seq<ArtifactIndexRow>, i: int)
    requires
        0 <= i <= rows.len(),
    ensures
        reference_edge_count(rows.take(i)) <= reference_edge_count(rows),
        0 <= reference_edge_count(rows.take(i)),
    decreases rows.len() - i,
{
    if i < rows.len() {
        lemma_edge_count_prefix(rows, i + 1);
        assert(rows.take(i + 1).drop_last() =~= rows.take(i));
    } else {
        assert(rows.take(i) =~= rows);
    }
    lemma_edge_count_nonnegative(rows.take(i));
}

proof fn lemma_edge_count_nonnegative(rows: Seq<ArtifactIndexRow>)
    ensures
        0 <= reference_edge_count(rows),
    decreases rows.len(),
{
    if rows.len() > 0 {
        lemma_edge_count_nonnegative(rows.drop_last());
    }
}

/// The index of the row carrying `id`, if any.
fn find_row(rows: &[ArtifactIndexRow], id: &String) -> (found: Option<usize>)
    ensures
        found matches Some(j) ==> names_row(rows@, id@, j as int),
        found is None ==> !(exists|j: int| names_row(rows@, id@, j)),
{
    let mut j: usize = 0;
    while j < rows.len()
        invariant
            0 <= j <= rows@.len(),
            forall|q: int| 0 <= q < j ==> !names_row(rows@, id@, q),
        decreases rows@.len() - j,
    {
        if rows[j].artifact_id == *id {
            return Some(j);
        }
        j = j + 1;
    }
    None
}

/// Checks the references between indexed artifacts: at most
/// [`MAX_INDEXED_REFERENCE_EDGES`] of them, each a valid artifact identifier
/// naming an indexed artifact whose content is present, and no cycle among them.
pub fn validate_indexed_artifact_references(
    rows: &[ArtifactIndexRow],
    operation: StorageOperation,
    metadata_dir: &str,
) -> (result: Result<(), StorageServiceError>)
    requires
        row_ids_distinct(rows@),
    ensures
        result is Ok <==> reference_edge_count(rows@) <= MAX_INDEXED_REFERENCE_EDGES
            && all_references_sound(rows@) && references_form_no_cycle(rows@),
        result matches Err(error) ==> {
            &&& error.operation == operation
            &&& opt_view(error.path) == Some(metadata_dir@)
            &&& if reference_edge_count(rows@) > usize::MAX {
                &&& error.code == StorageErrorCode::ScanLimitExceeded
                &&& error.message@ == "Artifact 来源引用计数溢出。"@
                &&& error.artifact_id is None
            } else if reference_edge_count(rows@) > MAX_INDEXED_REFERENCE_EDGES {
                &&& error.code == StorageErrorCode::ScanLimitExceeded
                &&& error.message@ == "同步索引最多校验 65536 条 Artifact 来源引用。"@
                &&& error.artifact_id is None
            } else if !all_references_sound(rows@) {
                exists|i: int, k: int|
                    #[trigger] is_first_fault(rows@, i, k) && {
                        let id = reference_text(rows@, i, k);
                        &&& Some(error.code) == reference_fault(rows@, id)
                        &&& if error.code == StorageErrorCode::InvalidArtifact {
                            &&& error.message@
                                == "Artifact 来源引用不是安全、可移植的 artifact_ 身份。"@
                            &&& error.artifact_id is None
                        } else if error.code == StorageErrorCode::ArtifactNotFound {
                            &&& error.message@ == "Artifact 来源引用未在当前项目中找到。"@
                            &&& opt_view(error.artifact_id) == Some(id)
                        } else {
                            &&& error.message@ == "Artifact 来源引用的内容对象缺失。"@
                            &&& opt_view(error.artifact_id) == Some(id)
                        }
                    }
            } else {
                &&& error.code == StorageErrorCode::ArtifactConflict
                &&& error.message@ == "Artifact 来源图包含循环引用。"@
                &&& error.artifact_id is None
            }
        },
{
    let mut total: usize = 0;
    let mut i: usize = 0;
    while i < rows.len()
        invariant
            0 <= i <= rows@.len(),
            total as int == reference_edge_count(rows@.take(i as int)),
        decreases rows@.len() - i,
    {
        proof {
            assert(rows@.take(i + 1).drop_last() =~= rows@.take(i as int));
        }
        match total.checked_add(rows[i].reference_ids.len()) {
            Some(sum) => {
                total = sum;
            },
            None => {
                proof {
                    lemma_edge_count_prefix(rows@, i + 1);
                }
                return Err(
                    StorageServiceError::new(
                        StorageErrorCode::ScanLimitExceeded,
                        operation,
                        "Artifact 来源引用计数溢出。",
                    ).at_path(metadata_dir),
                );
            },
        }
        i = i + 1;
    }
    proof {
        assert(rows@.take(rows@.len() as int) =~= rows@);
    }
    if total > MAX_INDEXED_REFERENCE_EDGES {
        return Err(
            StorageServiceError::new(
                StorageErrorCode::ScanLimitExceeded,
                operation,
                "同步索引最多校验 65536 条 Artifact 来源引用。",
            ).at_path(metadata_dir),
        );
    }
    let mut graph: Vec<Vec<usize>> = Vec::new();
    let mut i: usize = 0;
    while i < rows.len()
        invariant
            0 <= i <= rows@.len(),
            row_ids_distinct(rows@),
            reference_edge_count(rows@) <= MAX_INDEXED_REFERENCE_EDGES,
            graph@.len() == i,
            forall|i2: int, k2: int|
                is_reference(rows@, i2, k2) && i2 < i ==> #[trigger] reference_fault(
                    rows@,
                    reference_text(rows@, i2, k2),
                ) is None,
            forall|i2: int| 0 <= i2 < i ==> (#[trigger] graph@[i2])@.len() == rows@[i2].reference_ids@.len(),
            forall|i2: int, k2: int|
                0 <= i2 < i && 0 <= k2 < rows@[i2].reference_ids@.len() ==> names_row(
                    rows@,
                    reference_text(rows@, i2, k2),
                    #[trigger] graph@[i2]@[k2] as int,
                ),
        decreases rows@.len() - i,
    {
        let references = &rows[i].reference_ids;
        let mut edges: Vec<usize> = Vec::new();
        let mut k: usize = 0;
        while k < references.len()
            invariant
                0 <= i < rows@.len(),
                row_ids_distinct(rows@),
                reference_edge_count(rows@) <= MAX_INDEXED_REFERENCE_EDGES,
                references@ == rows@[i as int].reference_ids@,
                0 <= k <= references@.len(),
                edges@.len() == k,
                forall|i2: int, k2: int|
                    is_reference(rows@, i2, k2) && (i2 < i || (i2 == i && k2 < k))
                        ==> #[trigger] reference_fault(rows@, reference_text(rows@, i2, k2)) is None,
                forall|k2: int|
                    0 <= k2 < k ==> names_row(
                        rows@,
                        reference_text(rows@, i as int, k2),
                        #[trigger] edges@[k2] as int,
                    ),
            decreases references@.len() - k,
        {
            let id = &references[k];
            assert(id@ == reference_text(rows@, i as int, k as int));
            if !artifact_ref_is_valid(id.as_str()) {
                proof {
                    assert(is_first_fault(rows@, i as int, k as int));
                    assert(!all_references_sound(rows@));
                }
                return Err(
                    StorageServiceError::new(
                        StorageErrorCode::InvalidArtifact,
                        operation,
                        "Artifact 来源引用不是安全、可移植的 artifact_ 身份。",
                    ).at_path(metadata_dir),
                );
            }
            match find_row(rows, id) {
                None => {
                    proof {
                        assert(is_first_fault(rows@, i as int, k as int));
                        assert(!all_references_sound(rows@));
                    assert(!all_references_sound(rows@));
                    }
                    return Err(
                        StorageServiceError::new(
                            StorageErrorCode::ArtifactNotFound,
                            operation,
                            "Artifact 来源引用未在当前项目中找到。",
                        ).at_path(metadata_dir).for_artifact(id.as_str()),
                    );
                },
                Some(j) => {
                    if !rows[j].content_available {
                        proof {
                            assert(is_first_fault(rows@, i as int, k as int));
                            assert(!all_references_sound(rows@));
                        assert(!all_references_sound(rows@));
                    assert(!all_references_sound(rows@));
                        }
                        return Err(
                            StorageServiceError::new(
                                StorageErrorCode::ContentCorrupt,
                                operation,
                                "Artifact 来源引用的内容对象缺失。",
                            ).at_path(metadata_dir).for_artifact(id.as_str()),
                        );
                    }
                    proof {
                        assert forall|q: int|
                            names_row(rows@, id@, q) implies rows@[q].content_available by {
                            if q != j {
                                assert(rows@[q].artifact_id@ != rows@[j as int].artifact_id@);
                            }
                        }
                    }
                    edges.push(j);
                },
            }
            k = k + 1;
        }
        graph.push(edges);
        i = i + 1;
    }
    let ghost g = graph_view(graph@);
    proof {
        assert forall|a: int, b: int|
            0 <= a < g.len() && 0 <= b < g[a].len() implies #[trigger] g[a][b] < g.len() by {
            assert(names_row(rows@, reference_text(rows@, a, b), graph@[a]@[b] as int));
        }
        lemma_rank_correspondence(rows@, g);
    }
    if !references_acyclic(&graph) {
        return Err(
            StorageServiceError::new(
                StorageErrorCode::ArtifactConflict,
                operation,
                "Artifact 来源图包含循环引用。",
            ).at_path(metadata_dir),
        );
    }
    Ok(())
}

/// With distinct identifiers, a graph that resolves every reference to the
/// row it names has the same rankings as the rows.
proof fn lemma_rank_correspondence(rows: Seq<ArtifactIndexRow>, g: Seq<Seq<usize>>)
    requires
        row_ids_distinct(rows),
        g.len() == rows.len(),
        forall|i: int| 0 <= i < rows.len() ==> (#[trigger] g[i]).len() == rows[i].reference_ids@.len(),
        forall|i: int, k: int|
            is_reference(rows, i, k) ==> names_row(rows, reference_text(rows, i, k), #[trigger] g[i][k] as int),
    ensures
        is_acyclic(g) == references_form_no_cycle(rows),
{
    if is_acyclic(g) {
        let rank = choose|rank: Seq<nat>| is_topological_rank(g, rank);
        assert forall|i: int, k: int, j: int|
            is_reference(rows, i, k) && #[trigger] names_row(rows, reference_text(rows, i, k), j)
            implies rank[j] < rank[i] by {
            assert(names_row(rows, reference_text(rows, i, k), g[i][k] as int));
            assert(g[i][k] as int == j);
        }
        assert(is_reference_rank(rows, rank));
    }
    if references_form_no_cycle(rows) {
        let rank = choose|rank: Seq<nat>| is_reference_rank(rows, rank);
        assert forall|i: int, k: int|
            0 <= i < g.len() && 0 <= k < g[i].len() implies rank[#[trigger] g[i][k] as int]
            < rank[i] by {
            assert(is_reference(rows, i, k));
            assert(names_row(rows, reference_text(rows, i, k), g[i][k] as int));
        }
        assert(is_topological_rank(g, rank));
    }
}

} // verus!
