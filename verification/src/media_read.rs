use vstd::prelude::*;

use crate::identifiers::{
    artifact_ref_is_valid, artifact_ref_spec, portable_id, portable_id_spec, texts,
};
use crate::media_error::{plain_media_error, MediaErrorCode, MediaOperation, MediaServiceError};
use crate::media_rules::{invalid_media_document_artifact, invalid_replay_artifact};
use crate::media_types::FrozenArtifactInputData;
use crate::ordered_set::{insert_sorted, lemma_ascending_unique, strictly_ascending, strings_strictly_ascending};
use crate::staged_source::{content_hash_spec, content_uri_for_hash, content_uri_spec};
use crate::storage_error::StorageOperation;
use crate::text::same_text;
use crate::timeline_assembly::{
    copy_frozen_input, frozen_input_document, frozen_view, input_ref_view, same_input_ref,
};
use crate::timeline_document::TimelineInputRef;

verus! {

/// The stage identifiers of the inputs.
pub open spec fn input_stages(inputs: Seq<FrozenArtifactInputData>) -> Seq<Seq<char>> {
    inputs.map_values(|input: FrozenArtifactInputData| input.stage_id@)
}

/// The views of some texts.
pub open spec fn str_views(values: Seq<&str>) -> Seq<Seq<char>> {
    values.map_values(|v: &str| v@)
}

/// Whether some input belongs to the stage `stage_id`.
fn has_stage(inputs: &[FrozenArtifactInputData], stage_id: &str) -> (result: bool)
    ensures
        result == input_stages(inputs@).to_set().contains(stage_id@),
{
    let mut k: usize = 0;
    while k < inputs.len()
        invariant
            0 <= k <= inputs@.len(),
            forall|q: int| 0 <= q < k ==> input_stages(inputs@)[q] != stage_id@,
        decreases inputs@.len() - k,
    {
        if same_text(inputs[k].stage_id.as_str(), stage_id) {
            assert(input_stages(inputs@)[k as int] == stage_id@);
            return true;
        }
        k = k + 1;
    }
    false
}

/// Whether some expected stage is `stage_id`.
fn expects_stage(expected: &[&str], stage_id: &str) -> (result: bool)
    ensures
        result == str_views(expected@).to_set().contains(stage_id@),
{
    let mut k: usize = 0;
    while k < expected.len()
        invariant
            0 <= k <= expected@.len(),
            forall|q: int| 0 <= q < k ==> str_views(expected@)[q] != stage_id@,
        decreases expected@.len() - k,
    {
        if same_text(expected[k], stage_id) {
            assert(str_views(expected@)[k as int] == stage_id@);
            return true;
        }
        k = k + 1;
    }
    false
}

/// Checks that a media document's inputs are exactly one per expected stage:
/// as many inputs as stages, and the same set of stages.
pub fn validate_exact_input_stages(
    inputs: &[FrozenArtifactInputData],
    expected: &[&str],
    operation: MediaOperation,
) -> (result: Result<(), MediaServiceError>)
    ensures
        result is Ok <==> inputs@.len() == expected@.len() && input_stages(inputs@).to_set()
            == str_views(expected@).to_set(),
        result matches Err(error) ==> plain_media_error(
            error,
            MediaErrorCode::InputReferenceMismatch,
            operation,
            "Artifact 不是受支持且身份闭包完整的媒体文档产物。"@,
        ),
{
    if inputs.len() != expected.len() {
        return Err(invalid_media_document_artifact(operation));
    }
    let ghost actual = input_stages(inputs@).to_set();
    let ghost wanted = str_views(expected@).to_set();
    let mut k: usize = 0;
    while k < inputs.len()
        invariant
            actual == input_stages(inputs@).to_set(),
            wanted == str_views(expected@).to_set(),
            0 <= k <= inputs@.len(),
            forall|q: int| 0 <= q < k ==> wanted.contains(#[trigger] input_stages(inputs@)[q]),
        decreases inputs@.len() - k,
    {
        if !expects_stage(expected, inputs[k].stage_id.as_str()) {
            assert(actual.contains(input_stages(inputs@)[k as int]));
            return Err(invalid_media_document_artifact(operation));
        }
        k = k + 1;
    }
    let mut j: usize = 0;
    while j < expected.len()
        invariant
            actual == input_stages(inputs@).to_set(),
            wanted == str_views(expected@).to_set(),
            0 <= j <= expected@.len(),
            forall|q: int| 0 <= q < j ==> actual.contains(#[trigger] str_views(expected@)[q]),
        decreases expected@.len() - j,
    {
        if !has_stage(inputs, expected[j]) {
            assert(wanted.contains(str_views(expected@)[j as int]));
            return Err(invalid_media_document_artifact(operation));
        }
        j = j + 1;
    }
    proof {
        assert forall|t: Seq<char>| actual.contains(t) <==> wanted.contains(t) by {
            if actual.contains(t) {
                let q = choose|q: int| 0 <= q < input_stages(inputs@).len() && input_stages(inputs@)[q] == t;
                assert(wanted.contains(input_stages(inputs@)[q]));
            }
            if wanted.contains(t) {
                let q = choose|q: int| 0 <= q < str_views(expected@).len() && str_views(expected@)[q] == t;
                assert(actual.contains(str_views(expected@)[q]));
            }
        }
        assert(actual =~= wanted);
    }
    Ok(())
}

/// What the reader checks of an audio media document; a field that is
/// missing or not a non-negative integer (or not a text) is `None`.
#[derive(Debug, Clone, PartialEq, Eq)]
pub struct AudioDocumentFacts {
    pub sample_rate_hz: Option<u64>,
    pub bits_per_sample: Option<u64>,
    pub channels: Option<u64>,
    pub block_align: Option<u64>,
    pub byte_rate: Option<u64>,
    pub data_bytes: Option<u64>,
    pub duration_ms: Option<u64>,
    pub source_content_hash: Option<String>,
    pub artifact_uri: Option<String>,
}

/// PCM parameters that agree with each other: the block is a whole number of
/// bytes per frame across the channels, the byte rate is the sample rate
/// times the block, the data is a non-empty whole number of blocks, and the
/// duration is the whole milliseconds those frames last (all without
/// overflowing 64 bits).
pub open spec fn pcm_consistent(
    sample_rate: u64,
    bits: u64,
    channels: u64,
    block_align: u64,
    byte_rate: u64,
    data_bytes: u64,
    duration_ms: u64,
) -> bool {
    let block = if block_align == 0 { 1 } else { block_align as int };
    let rate = if sample_rate == 0 { 1 } else { sample_rate as int };
    let frames = data_bytes as int / block;
    &&& channels * bits <= u64::MAX && (channels * bits) / 8 == block_align
    &&& sample_rate * block_align <= u64::MAX && sample_rate * block_align == byte_rate
    &&& data_bytes != 0
    &&& data_bytes as int % block == 0
    &&& frames * 1000 <= u64::MAX && (frames * 1000) / rate == duration_ms
}

/// Why an audio media document is refused on reading, if it is: its fields
/// must be present, its source hash canonical, its PCM parameters consistent,
/// and its internal URI the content address of its source.
pub open spec fn audio_document_refusal(facts: AudioDocumentFacts) -> Option<(MediaErrorCode, Seq<char>)> {
    let invalid = Some(
        (MediaErrorCode::InputReferenceMismatch, "Artifact 不是受支持且身份闭包完整的媒体文档产物。"@),
    );
    if facts.sample_rate_hz is None || facts.bits_per_sample is None || facts.channels is None
        || facts.block_align is None || facts.byte_rate is None || facts.data_bytes is None
        || facts.duration_ms is None {
        invalid
    } else if !(facts.source_content_hash matches Some(h) && content_hash_spec(h@)) {
        invalid
    } else if !pcm_consistent(
        facts.sample_rate_hz.unwrap(),
        facts.bits_per_sample.unwrap(),
        facts.channels.unwrap(),
        facts.block_align.unwrap(),
        facts.byte_rate.unwrap(),
        facts.data_bytes.unwrap(),
        facts.duration_ms.unwrap(),
    ) || !(facts.artifact_uri matches Some(u) && u@ == content_uri_spec(
        facts.source_content_hash.unwrap()@.skip(7),
    )) {
        Some(
            (
                MediaErrorCode::ContractViolation,
                "AudioMediaDocument 的 PCM 参数、时长或内部 URI 语义无效。"@,
            ),
        )
    } else {
        None
    }
}

/// Checks the PCM parameters, duration and internal URI of an audio media
/// document.
pub fn check_audio_document(facts: &AudioDocumentFacts, operation: MediaOperation) -> (result: Result<
    (),
    MediaServiceError,
>)
    ensures
        result is Ok <==> audio_document_refusal(*facts) is None,
        result matches Err(error) ==> {
            let refusal = audio_document_refusal(*facts).unwrap();
            plain_media_error(error, refusal.0, operation, refusal.1)
        },
{
    let (sample_rate, bits, channels, block_align, byte_rate, data_bytes, duration_ms) = match (
        facts.sample_rate_hz,
        facts.bits_per_sample,
        facts.channels,
        facts.block_align,
        facts.byte_rate,
        facts.data_bytes,
        facts.duration_ms,
    ) {
        (Some(a), Some(b), Some(c), Some(d), Some(e), Some(f), Some(g)) => (a, b, c, d, e, f, g),
        _ => {
            return Err(invalid_media_document_artifact(operation));
        },
    };
    let source_hash = match &facts.source_content_hash {
        Some(hash) => hash,
        None => {
            return Err(invalid_media_document_artifact(operation));
        },
    };
    let expected_uri = match content_uri_for_hash(source_hash.as_str(), StorageOperation::GetArtifact) {
        Ok(uri) => uri,
        Err(_) => {
            return Err(invalid_media_document_artifact(operation));
        },
    };
    let block: u64 = if block_align == 0 { 1 } else { block_align };
    let rate: u64 = if sample_rate == 0 { 1 } else { sample_rate };
    let block_ok = match channels.checked_mul(bits) {
        Some(product) => product / 8 == block_align,
        None => false,
    };
    let rate_ok = match sample_rate.checked_mul(block_align) {
        Some(product) => product == byte_rate,
        None => false,
    };
    let frames = data_bytes / block;
    let duration_ok = match frames.checked_mul(1000) {
        Some(milliseconds) => milliseconds / rate == duration_ms,
        None => false,
    };
    let uri_ok = match &facts.artifact_uri {
        Some(uri) => same_text(uri.as_str(), expected_uri.as_str()),
        None => false,
    };
    if !block_ok || !rate_ok || data_bytes == 0 || data_bytes % block != 0 || !duration_ok || !uri_ok {
        return Err(
            MediaServiceError::new(
                MediaErrorCode::ContractViolation,
                operation,
                "AudioMediaDocument 的 PCM 参数、时长或内部 URI 语义无效。",
            ),
        );
    }
    Ok(())
}

/// An input reference of a media document as it reads: its project (when it
/// is a text) and the frozen input (when it is well-formed).
#[derive(Debug, Clone, PartialEq, Eq)]
pub struct InputRefRecord {
    pub project_id: Option<String>,
    pub input: Option<FrozenArtifactInputData>,
}

/// A frozen input named in a media document: portable stage and review
/// identities, valid run and artifact identifiers, a canonical content hash
/// and bounded traceability sets.
pub open spec fn document_input_valid(input: FrozenArtifactInputData) -> bool {
    &&& portable_id_spec(input.stage_id@, 160)
    &&& crate::identifiers::run_id_spec(input.run_id@)
    &&& artifact_ref_spec(input.artifact_id@)
    &&& crate::identifiers::sha256_ref_spec(input.content_hash@)
    &&& portable_id_spec(input.review_record_id@, 160)
    &&& crate::identifiers::string_set_spec(texts(input.claim_ids@))
    &&& crate::identifiers::string_set_spec(texts(input.evidence_refs@))
}

/// The input was read from the record.
pub open spec fn input_of_record(record: InputRefRecord, input: FrozenArtifactInputData) -> bool {
    record.input matches Some(i) && frozen_view(i) == frozen_view(input)
}

/// Why reference `k` is refused given the earlier ones, if it is.
pub open spec fn input_record_refusal(records: Seq<InputRefRecord>, project_id: Seq<char>, k: int) -> Option<
    (MediaErrorCode, Seq<char>),
> {
    let record = records[k];
    if crate::storage_error::opt_view(record.project_id) != Some(project_id) {
        Some((MediaErrorCode::CrossProjectReference, "媒体文档 inputRefs 包含其他项目引用。"@))
    } else if record.input is None {
        Some((MediaErrorCode::InputReferenceMismatch, "媒体文档中的冻结输入格式无效。"@))
    } else if !document_input_valid(record.input.unwrap()) || exists|j: int|
        0 <= j < k && records[j].input.unwrap().artifact_id@ == record.input.unwrap().artifact_id@ {
        Some(
            (
                MediaErrorCode::InputReferenceMismatch,
                "Artifact 不是受支持且身份闭包完整的媒体文档产物。"@,
            ),
        )
    } else {
        None
    }
}

/// The refusal of the first refused reference among the first `n`.
pub open spec fn input_records_refusal(records: Seq<InputRefRecord>, project_id: Seq<char>, n: int) -> Option<
    (MediaErrorCode, Seq<char>),
>
    decreases n,
{
    if n <= 0 {
        None
    } else if input_records_refusal(records, project_id, n - 1) is Some {
        input_records_refusal(records, project_id, n - 1)
    } else {
        input_record_refusal(records, project_id, n - 1)
    }
}

/// Once a reference is refused, later ones do not change the refusal.
proof fn lemma_input_records_refusal_stays(records: Seq<InputRefRecord>, project_id: Seq<char>, m: int, n: int)
    requires
        m <= n,
        input_records_refusal(records, project_id, m) is Some,
    ensures
        input_records_refusal(records, project_id, n) == input_records_refusal(records, project_id, m),
    decreases n - m,
{
    if m < n {
        lemma_input_records_refusal_stays(records, project_id, m, n - 1);
    }
}

/// The frozen inputs a media document names, refused unless there are 1 to
/// 32, all of the project, well-formed, valid and of distinct artifacts.
pub fn media_document_frozen_inputs(
    records: &[InputRefRecord],
    expected_project_id: &str,
    operation: MediaOperation,
) -> (result: Result<Vec<FrozenArtifactInputData>, MediaServiceError>)
    ensures
        ({
            let n = records@.len() as int;
            let refusal = if !(0 < n <= 32) {
                Some(
                    (
                        MediaErrorCode::InputReferenceMismatch,
                        "Artifact 不是受支持且身份闭包完整的媒体文档产物。"@,
                    ),
                )
            } else {
                input_records_refusal(records@, expected_project_id@, n)
            };
            &&& result is Ok <==> refusal is None
            &&& result matches Ok(inputs) ==> inputs@.len() == n && forall|k: int|
                0 <= k < n ==> #[trigger] input_of_record(records@[k], inputs@[k])
            &&& result matches Err(error) ==> plain_media_error(
                error,
                refusal.unwrap().0,
                operation,
                refusal.unwrap().1,
            )
        }),
{
    if records.len() == 0 || records.len() > 32 {
        return Err(invalid_media_document_artifact(operation));
    }
    let mut inputs: Vec<FrozenArtifactInputData> = Vec::new();
    let mut k: usize = 0;
    while k < records.len()
        invariant
            0 < records@.len() <= 32,
            0 <= k <= records@.len(),
            input_records_refusal(records@, expected_project_id@, k as int) is None,
            inputs@.len() == k,
            forall|q: int| 0 <= q < k ==> #[trigger] input_of_record(records@[q], inputs@[q]),
        decreases records@.len() - k,
    {
        let record = &records[k];
        let same_project = match &record.project_id {
            Some(project) => same_text(project.as_str(), expected_project_id),
            None => false,
        };
        if !same_project {
            proof {
                lemma_input_records_refusal_stays(records@, expected_project_id@, k + 1, records@.len() as int);
            }
            return Err(
                MediaServiceError::new(
                    MediaErrorCode::CrossProjectReference,
                    operation,
                    "媒体文档 inputRefs 包含其他项目引用。",
                ),
            );
        }
        let input = match &record.input {
            Some(input) => input,
            None => {
                proof {
                    lemma_input_records_refusal_stays(records@, expected_project_id@, k + 1, records@.len() as int);
                }
                return Err(
                    MediaServiceError::new(
                        MediaErrorCode::InputReferenceMismatch,
                        operation,
                        "媒体文档中的冻结输入格式无效。",
                    ),
                );
            },
        };
        let mut repeated = false;
        let mut j: usize = 0;
        while j < k
            invariant
                0 <= j <= k < records@.len(),
                inputs@.len() == k,
                forall|q: int| 0 <= q < k ==> #[trigger] input_of_record(records@[q], inputs@[q]),
                repeated == exists|q: int|
                    0 <= q < j && records@[q].input.unwrap().artifact_id@ == input.artifact_id@,
            decreases k - j,
        {
            assert(input_of_record(records@[j as int], inputs@[j as int]));
            if same_text(inputs[j].artifact_id.as_str(), input.artifact_id.as_str()) {
                repeated = true;
            }
            j = j + 1;
        }
        if !crate::identifiers::valid_portable_id(input.stage_id.as_str(), 160)
            || !crate::identifiers::run_id_is_valid(input.run_id.as_str()) || !artifact_ref_is_valid(
            input.artifact_id.as_str(),
        ) || !crate::identifiers::is_sha256(input.content_hash.as_str())
            || !crate::identifiers::valid_portable_id(input.review_record_id.as_str(), 160)
            || !crate::identifiers::valid_string_set(&input.claim_ids)
            || !crate::identifiers::valid_string_set(&input.evidence_refs) || repeated {
            proof {
                lemma_input_records_refusal_stays(records@, expected_project_id@, k + 1, records@.len() as int);
            }
            return Err(invalid_media_document_artifact(operation));
        }
        inputs.push(copy_frozen_input(input));
        k = k + 1;
    }
    Ok(inputs)
}


/// The texts of a list read from a document, `None` for an entry that is
/// not a text.
pub open spec fn opt_texts(values: Seq<Option<String>>) -> Seq<Option<Seq<char>>> {
    values.map_values(|v: Option<String>| crate::storage_error::opt_view(v))
}

/// Whether entry `k` of the list is the text `value`.
fn entry_is(values: &[Option<String>], k: usize, value: &str) -> (result: bool)
    requires
        k < values@.len(),
    ensures
        result == (opt_texts(values@)[k as int] == Some(value@)),
{
    match &values[k] {
        Some(text) => same_text(text.as_str(), value),
        None => false,
    }
}

/// Whether an artifact's source lists (`None` when it has no list) every
/// expected identifier.
pub fn artifact_source_ids_contain(source_ids: Option<&[Option<String>]>, expected: &[String]) -> (result:
    bool)
    ensures
        result == (source_ids matches Some(ids) && forall|k: int|
            0 <= k < expected@.len() ==> opt_texts(ids@).contains(Some(#[trigger] expected@[k]@))),
{
    let ids = match source_ids {
        Some(ids) => ids,
        None => {
            return false;
        },
    };
    let mut k: usize = 0;
    while k < expected.len()
        invariant
            source_ids == Some(ids),
            0 <= k <= expected@.len(),
            forall|q: int| 0 <= q < k ==> opt_texts(ids@).contains(Some(#[trigger] expected@[q]@)),
        decreases expected@.len() - k,
    {
        let mut found = false;
        let mut j: usize = 0;
        while j < ids.len()
            invariant
                0 <= j <= ids@.len(),
                0 <= k < expected@.len(),
                found == exists|q: int| 0 <= q < j && opt_texts(ids@)[q] == Some(expected@[k as int]@),
            decreases ids@.len() - j,
        {
            if entry_is(ids, j, expected[k].as_str()) {
                found = true;
            }
            j = j + 1;
        }
        if !found {
            proof {
                if opt_texts(ids@).contains(Some(expected@[k as int]@)) {
                    let q = choose|q: int| 0 <= q < opt_texts(ids@).len() && opt_texts(ids@)[q] == Some(expected@[k as int]@);
                    assert(opt_texts(ids@)[q] == Some(expected@[k as int]@));
                }
                assert(!opt_texts(ids@).contains(Some(expected@[k as int]@)));
            }
            return false;
        }
        proof {
            let q = choose|q: int| 0 <= q < ids@.len() && opt_texts(ids@)[q] == Some(expected@[k as int]@);
            assert(opt_texts(ids@).contains(Some(expected@[k as int]@)));
        }
        k = k + 1;
    }
    true
}

/// Whether an artifact's source lists exactly the expected identifiers, in
/// order.
pub fn artifact_source_ids_match(source_ids: Option<&[Option<String>]>, expected: &[String]) -> (result:
    bool)
    ensures
        result == (source_ids matches Some(ids) && opt_texts(ids@) == expected@.map_values(
            |e: String| Some(e@),
        )),
{
    let ids = match source_ids {
        Some(ids) => ids,
        None => {
            return false;
        },
    };
    let ghost want = expected@.map_values(|e: String| Some(e@));
    if ids.len() != expected.len() {
        assert(opt_texts(ids@).len() != want.len());
        return false;
    }
    let mut k: usize = 0;
    while k < expected.len()
        invariant
            source_ids == Some(ids),
            want == expected@.map_values(|e: String| Some(e@)),
            ids@.len() == expected@.len(),
            0 <= k <= expected@.len(),
            forall|q: int| 0 <= q < k ==> opt_texts(ids@)[q] == want[q],
        decreases expected@.len() - k,
    {
        if !entry_is(ids, k, expected[k].as_str()) {
            assert(want[k as int] == Some(expected@[k as int]@));
            assert(opt_texts(ids@)[k as int] != want[k as int]);
            return false;
        }
        k = k + 1;
    }
    assert(opt_texts(ids@) =~= want);
    true
}

/// An entry that is a portable identifier.
pub open spec fn portable_entry(value: Option<String>) -> bool {
    value matches Some(id) && portable_id_spec(id@, 160)
}

/// Why a list of changed scene identifiers read back from a document is
/// refused, if it is: at most 10000 portable identifiers in strictly
/// ascending order.
pub open spec fn changed_ids_valid(values: Seq<Option<String>>) -> bool {
    &&& values.len() <= 10_000
    &&& forall|k: int| 0 <= k < values.len() ==> portable_entry(#[trigger] values[k])
    &&& strictly_ascending(values.map_values(|v: Option<String>| v.unwrap()@))
}

/// The changed scene identifiers a stored document reports, refused as an
/// unverifiable replay unless they are valid (see [`changed_ids_valid`]);
/// `values` is `None` when the document has no such list.
pub fn scene_plan_changed_ids(values: Option<&[Option<String>]>, operation: MediaOperation) -> (result:
    Result<Vec<String>, MediaServiceError>)
    ensures
        result is Ok <==> (values matches Some(v) && changed_ids_valid(v@)),
        result matches Ok(ids) ==> values matches Some(v) && texts(ids@) == v@.map_values(
            |x: Option<String>| x.unwrap()@,
        ),
        result matches Err(error) ==> plain_media_error(
            error,
            MediaErrorCode::ArtifactVerificationFailed,
            operation,
            "媒体幂等 receipt 指向的不可变 Artifact 无法通过校验。"@,
        ),
{
    let list = match values {
        Some(list) => list,
        None => {
            return Err(invalid_replay_artifact(operation));
        },
    };
    if list.len() > 10_000 {
        return Err(invalid_replay_artifact(operation));
    }
    let ghost unwrapped = list@.map_values(|x: Option<String>| x.unwrap()@);
    let mut ids: Vec<String> = Vec::new();
    let mut k: usize = 0;
    while k < list.len()
        invariant
            values == Some(list),
            unwrapped == list@.map_values(|x: Option<String>| x.unwrap()@),
            list@.len() <= 10_000,
            0 <= k <= list@.len(),
            forall|q: int| 0 <= q < k ==> portable_entry(#[trigger] list@[q]),
            texts(ids@) == unwrapped.take(k as int),
        decreases list@.len() - k,
    {
        let id = match &list[k] {
            Some(id) => id,
            None => {
                assert(!portable_entry(list@[k as int]));
                return Err(invalid_replay_artifact(operation));
            },
        };
        if !portable_id(id.as_str()) {
            assert(!portable_entry(list@[k as int]));
            return Err(invalid_replay_artifact(operation));
        }
        let ghost prior = texts(ids@);
        ids.push(id.clone());
        assert(texts(ids@) =~= prior.push(id@));
        assert(unwrapped.take(k + 1) =~= unwrapped.take(k as int).push(unwrapped[k as int]));
        k = k + 1;
    }
    assert(unwrapped.take(list@.len() as int) =~= unwrapped);
    if !strings_strictly_ascending(ids.as_slice()) {
        return Err(invalid_replay_artifact(operation));
    }
    Ok(ids)
}

/// The changed scene identifiers a stored timeline reports, refused as an
/// unverifiable replay unless they are valid and name exactly the scenes of
/// its track (sorted, without repeats); `scene_ids` is `None` when the track
/// is missing, and holds `None` for a scene without a text identifier.
pub fn timeline_changed_ids(
    values: Option<&[Option<String>]>,
    scene_ids: Option<&[Option<String>]>,
    operation: MediaOperation,
) -> (result: Result<Vec<String>, MediaServiceError>)
    ensures
        result is Ok <==> {
            &&& values matches Some(v) && changed_ids_valid(v@)
            &&& scene_ids matches Some(s) && 0 < s@.len() <= 10_000 && (forall|k: int|
                0 <= k < s@.len() ==> portable_entry(#[trigger] s@[k]))
                && values.unwrap()@.map_values(|x: Option<String>| x.unwrap()@).to_set()
                == s@.map_values(|x: Option<String>| x.unwrap()@).to_set()
        },
        result matches Ok(ids) ==> values matches Some(v) && texts(ids@) == v@.map_values(
            |x: Option<String>| x.unwrap()@,
        ),
        result matches Err(error) ==> plain_media_error(
            error,
            MediaErrorCode::ArtifactVerificationFailed,
            operation,
            "媒体幂等 receipt 指向的不可变 Artifact 无法通过校验。"@,
        ),
{
    let changed = scene_plan_changed_ids(values, operation)?;
    let scenes = match scene_ids {
        Some(scenes) => scenes,
        None => {
            return Err(invalid_replay_artifact(operation));
        },
    };
    if scenes.len() == 0 || scenes.len() > 10_000 {
        return Err(invalid_replay_artifact(operation));
    }
    let ghost unwrapped = scenes@.map_values(|x: Option<String>| x.unwrap()@);
    let mut expected: Vec<String> = Vec::new();
    let mut k: usize = 0;
    proof {
        assert(texts(expected@).to_set() =~= unwrapped.take(0).to_set());
    }
    while k < scenes.len()
        invariant
            scene_ids == Some(scenes),
            values matches Some(v) && changed_ids_valid(v@),
            unwrapped == scenes@.map_values(|x: Option<String>| x.unwrap()@),
            0 < scenes@.len() <= 10_000,
            0 <= k <= scenes@.len(),
            forall|q: int| 0 <= q < k ==> portable_entry(#[trigger] scenes@[q]),
            strictly_ascending(texts(expected@)),
            texts(expected@).to_set() == unwrapped.take(k as int).to_set(),
        decreases scenes@.len() - k,
    {
        let id = match &scenes[k] {
            Some(id) => id,
            None => {
                assert(!portable_entry(scenes@[k as int]));
                return Err(invalid_replay_artifact(operation));
            },
        };
        if !portable_id(id.as_str()) {
            assert(!portable_entry(scenes@[k as int]));
            return Err(invalid_replay_artifact(operation));
        }
        insert_sorted(&mut expected, id.as_str());
        proof {
            assert(unwrapped.take(k + 1) =~= unwrapped.take(k as int).push(unwrapped[k as int]));
            unwrapped.take(k as int).lemma_push_to_set_commute(unwrapped[k as int]);
        }
        k = k + 1;
    }
    assert(unwrapped.take(scenes@.len() as int) =~= unwrapped);
    let same = crate::identifiers::same_texts(changed.as_slice(), expected.as_slice());
    proof {
        if !same {
            if texts(changed@).to_set() == texts(expected@).to_set() {
                lemma_ascending_unique(texts(changed@), texts(expected@));
            }
        }
    }
    if !same {
        return Err(invalid_replay_artifact(operation));
    }
    Ok(changed)
}


/// A caption cue as a stored captions document holds it; a field that is
/// missing or of the wrong kind is `None`.
#[derive(Debug, Clone, PartialEq, Eq)]
pub struct StoredCueFacts {
    pub cue_id: Option<String>,
    pub source_index: Option<u64>,
    pub start_ms: Option<u64>,
    pub end_ms: Option<u64>,
    pub text: Option<String>,
}

/// A timing mapping as a stored captions document holds it; a field that is
/// missing or of the wrong kind is `None`.
#[derive(Debug, Clone, PartialEq, Eq)]
pub struct StoredMappingFacts {
    pub mapping_id: Option<String>,
    pub source_cue_id: Option<String>,
    pub level: Option<String>,
    pub start_ms: Option<u64>,
    pub end_ms: Option<u64>,
    pub timing_precision: Option<String>,
    pub timing_basis: Option<String>,
    pub text: Option<String>,
}

/// The refusal of an artifact that is not a complete media document.
pub open spec fn invalid_document() -> (MediaErrorCode, Seq<char>) {
    (MediaErrorCode::InputReferenceMismatch, "Artifact 不是受支持且身份闭包完整的媒体文档产物。"@)
}

/// The identifier of cue `c` (meaningful once the cue is accepted).
pub open spec fn stored_cue_id(cues: Seq<StoredCueFacts>, c: int) -> Seq<char> {
    cues[c].cue_id.unwrap()@
}

/// Why stored cue `i` is refused given the earlier ones, if it is: every
/// field present, numbered `i + 1`, starting no earlier than the previous
/// cue ends, non-empty, and of an identifier not used before.
pub open spec fn stored_cue_refusal(cues: Seq<StoredCueFacts>, i: int) -> Option<(MediaErrorCode, Seq<char>)> {
    let cue = cues[i];
    let previous_end: int = if i == 0 { 0 } else { cues[i - 1].end_ms.unwrap() as int };
    if cue.cue_id is None || cue.start_ms is None || cue.end_ms is None || cue.text is None {
        Some(invalid_document())
    } else if cue.source_index != Some((i + 1) as u64) || cue.start_ms.unwrap() < previous_end
        || cue.start_ms.unwrap() >= cue.end_ms.unwrap() || exists|j: int|
        0 <= j < i && stored_cue_id(cues, j) == stored_cue_id(cues, i) {
        Some((MediaErrorCode::ContractViolation, "Captions cue 必须连续编号、唯一、有序且不重叠。"@))
    } else {
        None
    }
}

/// The refusal of the first refused cue among the first `n`.
pub open spec fn stored_cues_refusal(cues: Seq<StoredCueFacts>, n: int) -> Option<(MediaErrorCode, Seq<char>)>
    decreases n,
{
    if n <= 0 {
        None
    } else if stored_cues_refusal(cues, n - 1) is Some {
        stored_cues_refusal(cues, n - 1)
    } else {
        stored_cue_refusal(cues, n - 1)
    }
}

/// Cue `c` is the cue with identifier `id`.
pub open spec fn cue_with_id(cues: Seq<StoredCueFacts>, c: int, id: Seq<char>) -> bool {
    0 <= c < cues.len() && stored_cue_id(cues, c) == id
}

/// The cue a mapping names (meaningful when there is one).
pub open spec fn named_cue(cues: Seq<StoredCueFacts>, id: Seq<char>) -> StoredCueFacts {
    cues[choose|c: int| cue_with_id(cues, c, id)]
}

/// The timing fields agree with the mapping's level: a cue-level mapping
/// repeats its cue exactly, sentence and word mappings are estimated by
/// interpolation.
pub open spec fn timing_pair_valid(mapping: StoredMappingFacts, cue: StoredCueFacts) -> bool {
    let level = mapping.level.unwrap()@;
    let precision = crate::storage_error::opt_view(mapping.timing_precision);
    let basis = crate::storage_error::opt_view(mapping.timing_basis);
    if level == "cue"@ {
        &&& precision == Some("cue_exact"@)
        &&& basis == Some("srt_cue"@)
        &&& mapping.start_ms == cue.start_ms
        &&& mapping.end_ms == cue.end_ms
        &&& crate::storage_error::opt_view(mapping.text) == crate::storage_error::opt_view(cue.text)
    } else if level == "sentence"@ {
        precision == Some("estimated"@) && basis == Some("sentence_interpolation"@)
    } else if level == "word"@ {
        precision == Some("estimated"@) && basis == Some("word_interpolation"@)
    } else {
        false
    }
}

/// Why mapping `i` is refused given the earlier ones, if it is: every field
/// present, naming an existing cue, of an identifier not used before, inside
/// its cue, non-empty, and with timing fields that agree with its level.
pub open spec fn stored_mapping_refusal(
    cues: Seq<StoredCueFacts>,
    mappings: Seq<StoredMappingFacts>,
    i: int,
) -> Option<(MediaErrorCode, Seq<char>)> {
    let m = mappings[i];
    let cue = named_cue(cues, m.source_cue_id.unwrap()@);
    if m.mapping_id is None || m.source_cue_id is None || m.level is None || m.start_ms is None
        || m.end_ms is None {
        Some(invalid_document())
    } else if !(exists|c: int| cue_with_id(cues, c, m.source_cue_id.unwrap()@)) {
        Some(invalid_document())
    } else if (exists|j: int| 0 <= j < i && mappings[j].mapping_id.unwrap()@ == m.mapping_id.unwrap()@)
        || m.start_ms.unwrap() < cue.start_ms.unwrap() || m.end_ms.unwrap() > cue.end_ms.unwrap()
        || m.start_ms.unwrap() >= m.end_ms.unwrap() || !timing_pair_valid(m, cue) {
        Some(
            (
                MediaErrorCode::ContractViolation,
                "Captions timing mapping 未闭包于来源 cue 或 timing 语义不一致。"@,
            ),
        )
    } else {
        None
    }
}

/// The refusal of the first refused mapping among the first `n`.
pub open spec fn stored_mappings_refusal(
    cues: Seq<StoredCueFacts>,
    mappings: Seq<StoredMappingFacts>,
    n: int,
) -> Option<(MediaErrorCode, Seq<char>)>
    decreases n,
{
    if n <= 0 {
        None
    } else if stored_mappings_refusal(cues, mappings, n - 1) is Some {
        stored_mappings_refusal(cues, mappings, n - 1)
    } else {
        stored_mapping_refusal(cues, mappings, n - 1)
    }
}

/// Mapping `m` belongs to cue `id` at `level`.
pub open spec fn mapping_at(m: StoredMappingFacts, id: Seq<char>, level: Seq<char>) -> bool {
    m.source_cue_id.unwrap()@ == id && m.level.unwrap()@ == level
}

/// The number of cue-level mappings of cue `id` among the first `n`.
pub open spec fn cue_level_count(mappings: Seq<StoredMappingFacts>, id: Seq<char>, n: int) -> int
    decreases n,
{
    if n <= 0 {
        0
    } else {
        cue_level_count(mappings, id, n - 1) + if mapping_at(mappings[n - 1], id, "cue"@) {
            1int
        } else {
            0int
        }
    }
}

/// The ranges of the mappings of cue `id` at `level` among the first `n`,
/// in order.
pub open spec fn level_ranges(mappings: Seq<StoredMappingFacts>, id: Seq<char>, level: Seq<char>, n: int) -> Seq<
    (u64, u64),
>
    decreases n,
{
    if n <= 0 {
        Seq::empty()
    } else if mapping_at(mappings[n - 1], id, level) {
        level_ranges(mappings, id, level, n - 1).push(
            (mappings[n - 1].start_ms.unwrap(), mappings[n - 1].end_ms.unwrap()),
        )
    } else {
        level_ranges(mappings, id, level, n - 1)
    }
}

/// Where the first `n` ranges end when each starts where the one before it
/// ends (the first at `start`); `None` at a hole or overlap.
pub open spec fn chain_end(ranges: Seq<(u64, u64)>, start: u64, n: int) -> Option<u64>
    decreases n,
{
    if n <= 0 {
        Some(start)
    } else {
        match chain_end(ranges, start, n - 1) {
            None => None,
            Some(end) => if ranges[n - 1].0 == end {
                Some(ranges[n - 1].1)
            } else {
                None
            },
        }
    }
}

/// Why the ranges of one level do not tile the cue `[start, end)`, if they
/// do not.
pub open spec fn tiling_refusal(ranges: Seq<(u64, u64)>, start: u64, end: u64) -> Option<
    (MediaErrorCode, Seq<char>),
> {
    if ranges.len() == 0 {
        Some(invalid_document())
    } else {
        match chain_end(ranges, start, ranges.len() as int) {
            None => Some(
                (
                    MediaErrorCode::ContractViolation,
                    "Captions 子级 timing mapping 必须无洞、无重叠地覆盖 cue。"@,
                ),
            ),
            Some(last) => if last != end {
                Some((MediaErrorCode::ContractViolation, "Captions 子级 timing mapping 未完整覆盖 cue。"@))
            } else {
                None
            },
        }
    }
}

/// Why cue `c` is not covered by its mappings, if it is not: exactly one
/// cue-level mapping, and sentence and word mappings that each tile it.
pub open spec fn coverage_refusal(cues: Seq<StoredCueFacts>, mappings: Seq<StoredMappingFacts>, c: int) -> Option<
    (MediaErrorCode, Seq<char>),
> {
    let id = stored_cue_id(cues, c);
    let start = cues[c].start_ms.unwrap();
    let end = cues[c].end_ms.unwrap();
    let n = mappings.len() as int;
    if cue_level_count(mappings, id, n) != 1 {
        Some(invalid_document())
    } else if tiling_refusal(level_ranges(mappings, id, "sentence"@, n), start, end) is Some {
        tiling_refusal(level_ranges(mappings, id, "sentence"@, n), start, end)
    } else {
        tiling_refusal(level_ranges(mappings, id, "word"@, n), start, end)
    }
}

/// Cue `c` is refused for coverage, and no refused cue has a smaller
/// identifier (cues are checked in identifier order).
pub open spec fn first_uncovered(cues: Seq<StoredCueFacts>, mappings: Seq<StoredMappingFacts>, c: int) -> bool {
    &&& 0 <= c < cues.len()
    &&& coverage_refusal(cues, mappings, c) is Some
    &&& forall|d: int|
        0 <= d < cues.len() && coverage_refusal(cues, mappings, d) is Some ==> !crate::ordered_set::text_less(
            #[trigger] stored_cue_id(cues, d),
            stored_cue_id(cues, c),
        )
}


/// Once a cue is refused, later cues do not change the refusal.
proof fn lemma_stored_cues_refusal_stays(cues: Seq<StoredCueFacts>, m: int, n: int)
    requires
        m <= n,
        stored_cues_refusal(cues, m) is Some,
    ensures
        stored_cues_refusal(cues, n) == stored_cues_refusal(cues, m),
    decreases n - m,
{
    if m < n {
        lemma_stored_cues_refusal_stays(cues, m, n - 1);
    }
}

/// When no cue among the first `n` is refused, each of them passes.
proof fn lemma_stored_cues_accept(cues: Seq<StoredCueFacts>, n: int)
    requires
        stored_cues_refusal(cues, n) is None,
    ensures
        forall|i: int| 0 <= i < n ==> #[trigger] stored_cue_refusal(cues, i) is None,
    decreases n,
{
    if n > 0 {
        lemma_stored_cues_accept(cues, n - 1);
    }
}

/// Accepted cues have all their fields and distinct identifiers.
proof fn lemma_accepted_cues(cues: Seq<StoredCueFacts>)
    requires
        stored_cues_refusal(cues, cues.len() as int) is None,
    ensures
        forall|i: int|
            0 <= i < cues.len() ==> (#[trigger] cues[i]).cue_id is Some && cues[i].start_ms is Some
                && cues[i].end_ms is Some && cues[i].text is Some && cues[i].start_ms.unwrap()
                < cues[i].end_ms.unwrap(),
        forall|i: int, j: int|
            0 <= i < j < cues.len() ==> stored_cue_id(cues, i) != stored_cue_id(cues, j),
{
    lemma_stored_cues_accept(cues, cues.len() as int);
    assert forall|i: int, j: int| 0 <= i < j < cues.len() implies stored_cue_id(cues, i)
        != stored_cue_id(cues, j) by {
        assert(stored_cue_refusal(cues, j) is None);
    }
    assert forall|i: int| 0 <= i < cues.len() implies (#[trigger] cues[i]).cue_id is Some
        && cues[i].start_ms is Some && cues[i].end_ms is Some && cues[i].text is Some
        && cues[i].start_ms.unwrap() < cues[i].end_ms.unwrap() by {
        assert(stored_cue_refusal(cues, i) is None);
    }
}

/// Checks the cues of a stored captions document in order.
pub fn check_stored_cues(cues: &[StoredCueFacts], operation: MediaOperation) -> (result: Result<
    (),
    MediaServiceError,
>)
    ensures
        result is Ok <==> stored_cues_refusal(cues@, cues@.len() as int) is None,
        result matches Err(error) ==> {
            let refusal = stored_cues_refusal(cues@, cues@.len() as int).unwrap();
            plain_media_error(error, refusal.0, operation, refusal.1)
        },
{
    let mut previous_end: u64 = 0;
    let mut i: usize = 0;
    while i < cues.len()
        invariant
            0 <= i <= cues@.len(),
            stored_cues_refusal(cues@, i as int) is None,
            previous_end == if i == 0 { 0 } else { cues@[i - 1].end_ms.unwrap() },
        decreases cues@.len() - i,
    {
        let cue = &cues[i];
        let (id, start, end) = match (&cue.cue_id, cue.start_ms, cue.end_ms, &cue.text) {
            (Some(id), Some(start), Some(end), Some(_)) => (id, start, end),
            _ => {
                proof {
                    lemma_stored_cues_refusal_stays(cues@, i + 1, cues@.len() as int);
                }
                return Err(invalid_media_document_artifact(operation));
            },
        };
        let mut repeated = false;
        let mut j: usize = 0;
        while j < i
            invariant
                0 <= j <= i < cues@.len(),
                stored_cues_refusal(cues@, i as int) is None,
                cues@[i as int].cue_id == Some(*id),
                repeated == exists|q: int| 0 <= q < j && stored_cue_id(cues@, q) == id@,
            decreases i - j,
        {
            proof {
                lemma_stored_cues_accept(cues@, i as int);
                assert(stored_cue_refusal(cues@, j as int) is None);
            }
            match &cues[j].cue_id {
                Some(other) => {
                    assert(stored_cue_id(cues@, j as int) == other@);
                    if same_text(other.as_str(), id.as_str()) {
                        repeated = true;
                    }
                },
                None => {},
            }
            j = j + 1;
        }
        let numbered = match cue.source_index {
            Some(index) => index == i as u64 + 1,
            None => false,
        };
        if !numbered || start < previous_end || start >= end || repeated {
            proof {
                lemma_stored_cues_refusal_stays(cues@, i + 1, cues@.len() as int);
            }
            return Err(
                MediaServiceError::new(
                    MediaErrorCode::ContractViolation,
                    operation,
                    "Captions cue 必须连续编号、唯一、有序且不重叠。",
                ),
            );
        }
        previous_end = end;
        i = i + 1;
    }
    Ok(())
}

/// The position of the cue with identifier `id`, if there is one.
fn find_stored_cue(cues: &[StoredCueFacts], id: &str) -> (found: Option<usize>)
    requires
        stored_cues_refusal(cues@, cues@.len() as int) is None,
    ensures
        match found {
            Some(c) => cue_with_id(cues@, c as int, id@) && named_cue(cues@, id@) == cues@[c as int],
            None => !(exists|c: int| cue_with_id(cues@, c, id@)),
        },
{
    proof {
        lemma_accepted_cues(cues@);
    }
    let mut c: usize = 0;
    while c < cues.len()
        invariant
            stored_cues_refusal(cues@, cues@.len() as int) is None,
            0 <= c <= cues@.len(),
            forall|q: int| 0 <= q < c ==> !cue_with_id(cues@, q, id@),
        decreases cues@.len() - c,
    {
        proof {
            lemma_accepted_cues(cues@);
        }
        let matches_id = match &cues[c].cue_id {
            Some(other) => same_text(other.as_str(), id),
            None => false,
        };
        if matches_id {
            proof {
                assert(cue_with_id(cues@, c as int, id@));
                let d = choose|d: int| cue_with_id(cues@, d, id@);
                assert(cue_with_id(cues@, d, id@));
                if d != c {
                    if d < c {
                        assert(stored_cue_id(cues@, d) != stored_cue_id(cues@, c as int));
                    } else {
                        assert(stored_cue_id(cues@, c as int) != stored_cue_id(cues@, d));
                    }
                }
            }
            return Some(c);
        }
        c = c + 1;
    }
    None
}

/// Whether an optional text is `value`.
fn text_is(text: &Option<String>, value: &str) -> (result: bool)
    ensures
        result == (crate::storage_error::opt_view(*text) == Some(value@)),
{
    match text {
        Some(t) => same_text(t.as_str(), value),
        None => false,
    }
}

/// Whether two optional texts are equal.
fn same_opt_text(a: &Option<String>, b: &Option<String>) -> (result: bool)
    ensures
        result == (crate::storage_error::opt_view(*a) == crate::storage_error::opt_view(*b)),
{
    match (a, b) {
        (Some(x), Some(y)) => same_text(x.as_str(), y.as_str()),
        (None, None) => true,
        _ => false,
    }
}

/// Decides [`timing_pair_valid`] for a mapping with a level.
fn timing_pair_is_valid(mapping: &StoredMappingFacts, cue: &StoredCueFacts) -> (result: bool)
    requires
        mapping.level is Some,
    ensures
        result == timing_pair_valid(*mapping, *cue),
{
    proof {
        reveal_strlit("cue");
        reveal_strlit("sentence");
        reveal_strlit("word");
    }
    if text_is(&mapping.level, "cue") {
        text_is(&mapping.timing_precision, "cue_exact") && text_is(&mapping.timing_basis, "srt_cue")
            && mapping.start_ms == cue.start_ms && mapping.end_ms == cue.end_ms && same_opt_text(
            &mapping.text,
            &cue.text,
        )
    } else if text_is(&mapping.level, "sentence") {
        text_is(&mapping.timing_precision, "estimated") && text_is(
            &mapping.timing_basis,
            "sentence_interpolation",
        )
    } else if text_is(&mapping.level, "word") {
        text_is(&mapping.timing_precision, "estimated") && text_is(
            &mapping.timing_basis,
            "word_interpolation",
        )
    } else {
        false
    }
}

/// Once a mapping is refused, later mappings do not change the refusal.
proof fn lemma_stored_mappings_refusal_stays(
    cues: Seq<StoredCueFacts>,
    mappings: Seq<StoredMappingFacts>,
    m: int,
    n: int,
)
    requires
        m <= n,
        stored_mappings_refusal(cues, mappings, m) is Some,
    ensures
        stored_mappings_refusal(cues, mappings, n) == stored_mappings_refusal(cues, mappings, m),
    decreases n - m,
{
    if m < n {
        lemma_stored_mappings_refusal_stays(cues, mappings, m, n - 1);
    }
}

/// When no mapping among the first `n` is refused, each of them passes.
proof fn lemma_stored_mappings_accept(cues: Seq<StoredCueFacts>, mappings: Seq<StoredMappingFacts>, n: int)
    requires
        stored_mappings_refusal(cues, mappings, n) is None,
    ensures
        forall|i: int| 0 <= i < n ==> #[trigger] stored_mapping_refusal(cues, mappings, i) is None,
    decreases n,
{
    if n > 0 {
        lemma_stored_mappings_accept(cues, mappings, n - 1);
    }
}

/// Checks the timing mappings of a stored captions document in order.
pub fn check_stored_mappings(
    cues: &[StoredCueFacts],
    mappings: &[StoredMappingFacts],
    operation: MediaOperation,
) -> (result: Result<(), MediaServiceError>)
    requires
        stored_cues_refusal(cues@, cues@.len() as int) is None,
    ensures
        result is Ok <==> stored_mappings_refusal(cues@, mappings@, mappings@.len() as int) is None,
        result matches Err(error) ==> {
            let refusal = stored_mappings_refusal(cues@, mappings@, mappings@.len() as int).unwrap();
            plain_media_error(error, refusal.0, operation, refusal.1)
        },
{
    let mut i: usize = 0;
    while i < mappings.len()
        invariant
            stored_cues_refusal(cues@, cues@.len() as int) is None,
            0 <= i <= mappings@.len(),
            stored_mappings_refusal(cues@, mappings@, i as int) is None,
        decreases mappings@.len() - i,
    {
        let m = &mappings[i];
        let (mapping_id, cue_id, start, end) = match (
            &m.mapping_id,
            &m.source_cue_id,
            &m.level,
            m.start_ms,
            m.end_ms,
        ) {
            (Some(mapping_id), Some(cue_id), Some(_), Some(start), Some(end)) => (
                mapping_id,
                cue_id,
                start,
                end,
            ),
            _ => {
                proof {
                    lemma_stored_mappings_refusal_stays(cues@, mappings@, i + 1, mappings@.len() as int);
                }
                return Err(invalid_media_document_artifact(operation));
            },
        };
        let c = match find_stored_cue(cues, cue_id.as_str()) {
            Some(c) => c,
            None => {
                proof {
                    lemma_stored_mappings_refusal_stays(cues@, mappings@, i + 1, mappings@.len() as int);
                }
                return Err(invalid_media_document_artifact(operation));
            },
        };
        let cue = &cues[c];
        proof {
            lemma_accepted_cues(cues@);
        }
        let mut repeated = false;
        let mut j: usize = 0;
        while j < i
            invariant
                stored_cues_refusal(cues@, cues@.len() as int) is None,
                0 <= j <= i < mappings@.len(),
                stored_mappings_refusal(cues@, mappings@, i as int) is None,
                mappings@[i as int].mapping_id == Some(*mapping_id),
                repeated == exists|q: int|
                    0 <= q < j && mappings@[q].mapping_id.unwrap()@ == mapping_id@,
            decreases i - j,
        {
            proof {
                lemma_stored_mappings_accept(cues@, mappings@, i as int);
                assert(stored_mapping_refusal(cues@, mappings@, j as int) is None);
            }
            if text_is(&mappings[j].mapping_id, mapping_id.as_str()) {
                repeated = true;
            }
            j = j + 1;
        }
        let cue_start = cue.start_ms.unwrap();
        let cue_end = cue.end_ms.unwrap();
        if repeated || start < cue_start || end > cue_end || start >= end || !timing_pair_is_valid(
            m,
            cue,
        ) {
            proof {
                lemma_stored_mappings_refusal_stays(cues@, mappings@, i + 1, mappings@.len() as int);
            }
            return Err(
                MediaServiceError::new(
                    MediaErrorCode::ContractViolation,
                    operation,
                    "Captions timing mapping 未闭包于来源 cue 或 timing 语义不一致。",
                ),
            );
        }
        i = i + 1;
    }
    Ok(())
}


/// A chain over the first `n` ranges does not look past them.
proof fn lemma_chain_end_prefix(ranges: Seq<(u64, u64)>, extra: (u64, u64), start: u64, n: int)
    requires
        0 <= n <= ranges.len(),
    ensures
        chain_end(ranges.push(extra), start, n) == chain_end(ranges, start, n),
    decreases n,
{
    if n > 0 {
        lemma_chain_end_prefix(ranges, extra, start, n - 1);
    }
}

/// The refusal of a tiling that was followed to its end, as an error.
fn tiling_error(count: usize, end_reached: Option<u64>, end: u64, operation: MediaOperation) -> (error:
    Option<MediaServiceError>)
    ensures
        match error {
            None => count > 0 && end_reached == Some(end),
            Some(e) => if count == 0 {
                plain_media_error(e, invalid_document().0, operation, invalid_document().1)
            } else if end_reached is None {
                plain_media_error(
                    e,
                    MediaErrorCode::ContractViolation,
                    operation,
                    "Captions 子级 timing mapping 必须无洞、无重叠地覆盖 cue。"@,
                )
            } else {
                end_reached != Some(end) && plain_media_error(
                    e,
                    MediaErrorCode::ContractViolation,
                    operation,
                    "Captions 子级 timing mapping 未完整覆盖 cue。"@,
                )
            },
        },
{
    if count == 0 {
        return Some(invalid_media_document_artifact(operation));
    }
    match end_reached {
        None => Some(
            MediaServiceError::new(
                MediaErrorCode::ContractViolation,
                operation,
                "Captions 子级 timing mapping 必须无洞、无重叠地覆盖 cue。",
            ),
        ),
        Some(last) => if last != end {
            Some(
                MediaServiceError::new(
                    MediaErrorCode::ContractViolation,
                    operation,
                    "Captions 子级 timing mapping 未完整覆盖 cue。",
                ),
            )
        } else {
            None
        },
    }
}

/// The next end of a chain after one more range.
fn chain_step(end_reached: Option<u64>, start: u64, end: u64) -> (next: Option<u64>)
    ensures
        next == match end_reached {
            None => None,
            Some(e) => if start == e {
                Some(end)
            } else {
                None
            },
        },
{
    match end_reached {
        None => None,
        Some(e) => if start == e {
            Some(end)
        } else {
            None
        },
    }
}

/// The error for cue `c` not being covered by its mappings, if it is not.
fn coverage_error(
    cues: &[StoredCueFacts],
    mappings: &[StoredMappingFacts],
    c: usize,
    operation: MediaOperation,
) -> (error: Option<MediaServiceError>)
    requires
        stored_cues_refusal(cues@, cues@.len() as int) is None,
        stored_mappings_refusal(cues@, mappings@, mappings@.len() as int) is None,
        c < cues@.len(),
    ensures
        match coverage_refusal(cues@, mappings@, c as int) {
            None => error is None,
            Some(refusal) => error matches Some(e) && plain_media_error(e, refusal.0, operation, refusal.1),
        },
{
    proof {
        lemma_accepted_cues(cues@);
        lemma_stored_mappings_accept(cues@, mappings@, mappings@.len() as int);
        reveal_strlit("cue");
        reveal_strlit("sentence");
        reveal_strlit("word");
    }
    let cue = &cues[c];
    let id = cue.cue_id.as_ref().unwrap();
    let start = cue.start_ms.unwrap();
    let end = cue.end_ms.unwrap();
    let ghost idv = stored_cue_id(cues@, c as int);
    let mut count: usize = 0;
    let mut sentences: usize = 0;
    let mut sentence_end: Option<u64> = Some(start);
    let mut words: usize = 0;
    let mut word_end: Option<u64> = Some(start);
    let mut k: usize = 0;
    while k < mappings.len()
        invariant
            forall|q: int| 0 <= q < mappings@.len() ==> #[trigger] stored_mapping_refusal(cues@, mappings@, q) is None,
            idv == id@,
            0 <= k <= mappings@.len(),
            count as int == cue_level_count(mappings@, idv, k as int),
            count <= k,
            sentences as int == level_ranges(mappings@, idv, "sentence"@, k as int).len(),
            sentences <= k,
            sentence_end == chain_end(level_ranges(mappings@, idv, "sentence"@, k as int), start, sentences as int),
            words as int == level_ranges(mappings@, idv, "word"@, k as int).len(),
            words <= k,
            word_end == chain_end(level_ranges(mappings@, idv, "word"@, k as int), start, words as int),
        decreases mappings@.len() - k,
    {
        let m = &mappings[k];
        proof {
            assert(stored_mapping_refusal(cues@, mappings@, k as int) is None);
        }
        let of_cue = match &m.source_cue_id {
            Some(source) => same_text(source.as_str(), id.as_str()),
            None => false,
        };
        let m_start = m.start_ms.unwrap();
        let m_end = m.end_ms.unwrap();
        if of_cue && text_is(&m.level, "cue") {
            count = count + 1;
        }
        if of_cue && text_is(&m.level, "sentence") {
            proof {
                let r = level_ranges(mappings@, idv, "sentence"@, k as int);
                lemma_chain_end_prefix(r, (m_start, m_end), start, r.len() as int);
            }
            sentence_end = chain_step(sentence_end, m_start, m_end);
            sentences = sentences + 1;
        }
        if of_cue && text_is(&m.level, "word") {
            proof {
                let r = level_ranges(mappings@, idv, "word"@, k as int);
                lemma_chain_end_prefix(r, (m_start, m_end), start, r.len() as int);
            }
            word_end = chain_step(word_end, m_start, m_end);
            words = words + 1;
        }
        k = k + 1;
    }
    if count != 1 {
        return Some(invalid_media_document_artifact(operation));
    }
    let sentence_error = tiling_error(sentences, sentence_end, end, operation);
    if sentence_error.is_some() {
        return sentence_error;
    }
    tiling_error(words, word_end, end, operation)
}

/// Why the cues and mappings of a stored captions document are refused
/// before coverage is checked, if they are.
pub open spec fn caption_phases_refusal(cues: Seq<StoredCueFacts>, mappings: Seq<StoredMappingFacts>) -> Option<
    (MediaErrorCode, Seq<char>),
> {
    if stored_cues_refusal(cues, cues.len() as int) is Some {
        stored_cues_refusal(cues, cues.len() as int)
    } else {
        stored_mappings_refusal(cues, mappings, mappings.len() as int)
    }
}

/// Checks the timing of a stored captions document: its cues in order, its
/// mappings each inside its cue, and every cue covered by exactly one
/// cue-level mapping and by sentence and word mappings that tile it (cues
/// are checked for coverage in identifier order).
pub fn check_caption_timing(
    cues: &[StoredCueFacts],
    mappings: &[StoredMappingFacts],
    operation: MediaOperation,
) -> (result: Result<(), MediaServiceError>)
    ensures
        result is Ok <==> caption_phases_refusal(cues@, mappings@) is None && forall|c: int|
            0 <= c < cues@.len() ==> #[trigger] coverage_refusal(cues@, mappings@, c) is None,
        result matches Err(error) ==> match caption_phases_refusal(cues@, mappings@) {
            Some(refusal) => plain_media_error(error, refusal.0, operation, refusal.1),
            None => exists|c: int|
                first_uncovered(cues@, mappings@, c) && plain_media_error(
                    error,
                    coverage_refusal(cues@, mappings@, c).unwrap().0,
                    operation,
                    coverage_refusal(cues@, mappings@, c).unwrap().1,
                ),
        },
{
    check_stored_cues(cues, operation)?;
    check_stored_mappings(cues, mappings, operation)?;
    let mut best: Option<(usize, MediaServiceError)> = None;
    let mut c: usize = 0;
    while c < cues.len()
        invariant
            stored_cues_refusal(cues@, cues@.len() as int) is None,
            stored_mappings_refusal(cues@, mappings@, mappings@.len() as int) is None,
            0 <= c <= cues@.len(),
            match best {
                None => forall|d: int| 0 <= d < c ==> #[trigger] coverage_refusal(cues@, mappings@, d) is None,
                Some((b, e)) => {
                    &&& b < c
                    &&& coverage_refusal(cues@, mappings@, b as int) is Some
                    &&& plain_media_error(
                        e,
                        coverage_refusal(cues@, mappings@, b as int).unwrap().0,
                        operation,
                        coverage_refusal(cues@, mappings@, b as int).unwrap().1,
                    )
                    &&& forall|d: int|
                        0 <= d < c && coverage_refusal(cues@, mappings@, d) is Some ==> !crate::ordered_set::text_less(
                            #[trigger] stored_cue_id(cues@, d),
                            stored_cue_id(cues@, b as int),
                        )
                },
            },
        decreases cues@.len() - c,
    {
        match coverage_error(cues, mappings, c, operation) {
            None => {},
            Some(error) => {
                proof {
                    lemma_accepted_cues(cues@);
                }
                let id = cues[c].cue_id.as_ref().unwrap();
                let replace = match &best {
                    None => true,
                    Some((b, _)) => crate::ordered_set::text_sorts_before(
                        id.as_str(),
                        cues[*b].cue_id.as_ref().unwrap().as_str(),
                    ),
                };
                if replace {
                    proof {
                        if let Some((b, _)) = best {
                            assert forall|d: int|
                                0 <= d < c + 1 && coverage_refusal(cues@, mappings@, d) is Some implies !crate::ordered_set::text_less(
                                #[trigger] stored_cue_id(cues@, d),
                                stored_cue_id(cues@, c as int),
                            ) by {
                                if d == c {
                                    crate::ordered_set::lemma_text_less_irreflexive(stored_cue_id(cues@, d));
                                } else if crate::ordered_set::text_less(stored_cue_id(cues@, d), stored_cue_id(cues@, c as int)) {
                                    crate::ordered_set::lemma_text_less_transitive(
                                        stored_cue_id(cues@, d),
                                        stored_cue_id(cues@, c as int),
                                        stored_cue_id(cues@, b as int),
                                    );
                                }
                            }
                        } else {
                            assert forall|d: int|
                                0 <= d < c + 1 && coverage_refusal(cues@, mappings@, d) is Some implies !crate::ordered_set::text_less(
                                #[trigger] stored_cue_id(cues@, d),
                                stored_cue_id(cues@, c as int),
                            ) by {
                                crate::ordered_set::lemma_text_less_irreflexive(stored_cue_id(cues@, d));
                            }
                        }
                    }
                    best = Some((c, error));
                }
            },
        }
        c = c + 1;
    }
    match best {
        None => Ok(()),
        Some((b, error)) => {
            assert(first_uncovered(cues@, mappings@, b as int));
            Err(error)
        },
    }
}


/// Checks the read semantics of an audio media document: its only input is
/// the approved script, its artifact was derived, and its PCM parameters,
/// duration and internal URI agree (see [`audio_document_refusal`]).
pub fn validate_audio_document_read_semantics(
    inputs: &[FrozenArtifactInputData],
    artifact_origin: Option<&str>,
    facts: &AudioDocumentFacts,
    operation: MediaOperation,
) -> (result: Result<(), MediaServiceError>)
    ensures
        ({
            let stages_ok = inputs@.len() == 1 && input_stages(inputs@).to_set() == set!["script"@];
            let derived = artifact_origin matches Some(o) && o@ == "derived"@;
            &&& result is Ok <==> stages_ok && derived && audio_document_refusal(*facts) is None
            &&& result matches Err(error) ==> if !stages_ok || !derived {
                plain_media_error(error, invalid_document().0, operation, invalid_document().1)
            } else {
                plain_media_error(
                    error,
                    audio_document_refusal(*facts).unwrap().0,
                    operation,
                    audio_document_refusal(*facts).unwrap().1,
                )
            }
        }),
{
    let mut expected: Vec<&str> = Vec::new();
    expected.push("script");
    proof {
        assert(str_views(expected@) =~= seq!["script"@]);
        assert forall|t: Seq<char>| str_views(expected@).to_set().contains(t) <==> set!["script"@].contains(t) by {
            if t == "script"@ {
                assert(str_views(expected@)[0] == t);
            }
        }
        assert(str_views(expected@).to_set() =~= set!["script"@]);
    }
    validate_exact_input_stages(inputs, expected.as_slice(), operation)?;
    let derived = match artifact_origin {
        Some(origin) => same_text(origin, "derived"),
        None => false,
    };
    if !derived {
        return Err(invalid_media_document_artifact(operation));
    }
    check_audio_document(facts, operation)
}

/// Checks the identity closure of a stored captions document: its inputs are
/// the approved script and audio, it declares that audio input, its raw
/// content hash is its source's, its raw artifact identifier is valid, and
/// its artifact's source lists the raw artifact and every input.
pub fn check_captions_closure(
    inputs: &[FrozenArtifactInputData],
    project_id: &str,
    declared_audio_input: Option<&TimelineInputRef>,
    raw_content_hash: Option<&str>,
    source_content_hash: Option<&str>,
    raw_artifact_id: Option<&str>,
    source_ids: Option<&[Option<String>]>,
    operation: MediaOperation,
) -> (result: Result<(), MediaServiceError>)
    ensures
        ({
            let stages_ok = inputs@.len() == 2 && input_stages(inputs@).to_set() == set![
                "script"@,
                "audio"@,
            ];
            let raw = match raw_content_hash {
                Some(h) => Some(h@),
                None => None::<Seq<char>>,
            };
            let source = match source_content_hash {
                Some(h) => Some(h@),
                None => None::<Seq<char>>,
            };
            let closed = {
                &&& forall|k: int|
                    0 <= k < inputs@.len() && #[trigger] inputs@[k].stage_id@ == "audio"@ ==> (
                    declared_audio_input matches Some(d) && input_ref_view(*d) == (
                        project_id@,
                        frozen_view(inputs@[k]),
                    ))
                &&& raw == source
                &&& raw_artifact_id matches Some(r) && artifact_ref_spec(r@)
                &&& source_ids matches Some(ids) && opt_texts(ids@).contains(
                    Some(raw_artifact_id.unwrap()@),
                ) && forall|k: int|
                    0 <= k < inputs@.len() ==> opt_texts(ids@).contains(
                        Some(#[trigger] inputs@[k].artifact_id@),
                    )
            };
            &&& result is Ok <==> stages_ok && closed
            &&& result matches Err(error) ==> plain_media_error(
                error,
                invalid_document().0,
                operation,
                invalid_document().1,
            )
        }),
{
    let mut expected: Vec<&str> = Vec::new();
    expected.push("script");
    expected.push("audio");
    proof {
        reveal_strlit("script");
        reveal_strlit("audio");
        assert(str_views(expected@) =~= seq!["script"@, "audio"@]);
        assert forall|t: Seq<char>| str_views(expected@).to_set().contains(t) <==> set!["script"@, "audio"@].contains(t) by {
            if t == "script"@ {
                assert(str_views(expected@)[0] == t);
            }
            if t == "audio"@ {
                assert(str_views(expected@)[1] == t);
            }
        }
        assert(str_views(expected@).to_set() =~= set!["script"@, "audio"@]);
    }
    validate_exact_input_stages(inputs, expected.as_slice(), operation)?;
    let mut a: usize = 0;
    while a < inputs.len() && !same_text(inputs[a].stage_id.as_str(), "audio")
        invariant
            0 <= a <= inputs@.len(),
            forall|q: int| 0 <= q < a ==> inputs@[q].stage_id@ != "audio"@,
        decreases inputs@.len() - a,
    {
        a = a + 1;
    }
    proof {
        assert(input_stages(inputs@).to_set().contains("audio"@));
        let w = choose|w: int| 0 <= w < input_stages(inputs@).len() && input_stages(inputs@)[w] == "audio"@;
        assert(inputs@[w].stage_id@ == "audio"@);
    }
    let audio = &inputs[a];
    proof {
        reveal_strlit("script");
        reveal_strlit("audio");
        assert forall|k: int| 0 <= k < inputs@.len() && #[trigger] inputs@[k].stage_id@ == "audio"@ implies k == a by {
            if k != a {
                assert(input_stages(inputs@).to_set().contains("script"@));
                let w = choose|w: int| 0 <= w < input_stages(inputs@).len() && input_stages(inputs@)[w] == "script"@;
                assert(w == k || w == a);
                assert(input_stages(inputs@)[w] == "audio"@);
            }
        }
    }
    let expected_ref = frozen_input_document(project_id, audio);
    let declared = match declared_audio_input {
        Some(declared) => same_input_ref(declared, &expected_ref),
        None => false,
    };
    let hashes_agree = match (raw_content_hash, source_content_hash) {
        (Some(x), Some(y)) => same_text(x, y),
        (None, None) => true,
        _ => false,
    };
    if !declared || !hashes_agree {
        return Err(invalid_media_document_artifact(operation));
    }
    let raw = match raw_artifact_id {
        Some(raw) => raw,
        None => {
            return Err(invalid_media_document_artifact(operation));
        },
    };
    if !artifact_ref_is_valid(raw) {
        return Err(invalid_media_document_artifact(operation));
    }
    let mut expected_sources: Vec<String> = Vec::new();
    expected_sources.push(raw.to_owned());
    let mut k: usize = 0;
    while k < inputs.len()
        invariant
            0 <= k <= inputs@.len(),
            expected_sources@.len() == k + 1,
            expected_sources@[0]@ == raw@,
            forall|q: int| 0 <= q < k ==> (#[trigger] expected_sources@[q + 1])@ == inputs@[q].artifact_id@,
        decreases inputs@.len() - k,
    {
        expected_sources.push(inputs[k].artifact_id.clone());
        k = k + 1;
    }
    let contains = artifact_source_ids_contain(source_ids, expected_sources.as_slice());
    proof {
        if contains {
            assert(expected_sources@[0]@ == raw@);
            assert forall|q: int| 0 <= q < inputs@.len() implies opt_texts(source_ids.unwrap()@).contains(
                Some(#[trigger] inputs@[q].artifact_id@),
            ) by {
                assert(expected_sources@[q + 1]@ == inputs@[q].artifact_id@);
            }
        } else if source_ids is Some {
            let ids = source_ids.unwrap();
            if opt_texts(ids@).contains(Some(raw@)) && forall|q: int|
                0 <= q < inputs@.len() ==> opt_texts(ids@).contains(Some(#[trigger] inputs@[q].artifact_id@)) {
                assert forall|q: int| 0 <= q < expected_sources@.len() implies opt_texts(ids@).contains(
                    Some(#[trigger] expected_sources@[q]@),
                ) by {
                    if q > 0 {
                        assert(expected_sources@[(q - 1) + 1]@ == inputs@[q - 1].artifact_id@);
                    }
                }
            }
        }
    }
    if !contains {
        return Err(invalid_media_document_artifact(operation));
    }
    Ok(())
}

} // verus!
