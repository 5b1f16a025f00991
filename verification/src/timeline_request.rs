use vstd::prelude::*;

use crate::digest::{content_digest, sha256_spec};
use crate::hex::{hex_lower, lower_nibble, lower_nibble_char};
use crate::identifiers::texts;
use crate::media_types::{FrozenArtifactInputData, TimelineCanvasData, TimelineSafeAreaData};
use crate::storage_rules::{decimal, push_decimal};
use crate::text::{chars_of, push_char};

verus! {

/// One character as JSON writes it inside a string: quotes and backslashes
/// escaped, the usual short escapes for backspace, form feed, line feed,
/// carriage return and tab, `\u00XX` with lowercase digits for the other
/// control characters below U+0020, and every other character as it is.
pub open spec fn json_char(c: char) -> Seq<char> {
    if c == '"' {
        seq!['\\', '"']
    } else if c == '\\' {
        seq!['\\', '\\']
    } else if c == '\u{8}' {
        seq!['\\', 'b']
    } else if c == '\u{c}' {
        seq!['\\', 'f']
    } else if c == '\n' {
        seq!['\\', 'n']
    } else if c == '\r' {
        seq!['\\', 'r']
    } else if c == '\t' {
        seq!['\\', 't']
    } else if (c as u32) < 0x20 {
        seq!['\\', 'u', '0', '0', lower_nibble((c as u32 / 16) as int), lower_nibble((c as u32 % 16) as int)]
    } else {
        seq![c]
    }
}

/// The characters of `s` escaped for a JSON string.
pub open spec fn json_escape(s: Seq<char>) -> Seq<char>
    decreases s.len(),
{
    if s.len() == 0 {
        Seq::empty()
    } else {
        json_escape(s.drop_last()) + json_char(s.last())
    }
}

/// `s` as a JSON string.
pub open spec fn json_string(s: Seq<char>) -> Seq<char> {
    seq!['"'] + json_escape(s) + seq!['"']
}

/// The items of a JSON array of strings, separated by commas.
pub open spec fn json_string_items(items: Seq<Seq<char>>) -> Seq<char>
    decreases items.len(),
{
    if items.len() == 0 {
        Seq::empty()
    } else if items.len() == 1 {
        json_string(items[0])
    } else {
        json_string_items(items.drop_last()) + seq![','] + json_string(items.last())
    }
}

/// A JSON array of strings.
pub open spec fn json_string_array(items: Seq<Seq<char>>) -> Seq<char> {
    seq!['['] + json_string_items(items) + seq![']']
}

/// A frozen input as the JSON object a timeline records for it in `project`,
/// its keys in sorted order.
pub open spec fn input_ref_json(project_id: Seq<char>, input: FrozenArtifactInputData) -> Seq<char> {
    "{\"artifactId\":"@ + json_string(input.artifact_id@) + ",\"claimIds\":"@ + json_string_array(
        texts(input.claim_ids@),
    ) + ",\"contentHash\":"@ + json_string(input.content_hash@) + ",\"evidenceRefs\":"@
        + json_string_array(texts(input.evidence_refs@)) + ",\"projectId\":"@ + json_string(project_id)
        + ",\"reviewRecordId\":"@ + json_string(input.review_record_id@) + ",\"runId\":"@ + json_string(
        input.run_id@,
    ) + ",\"stageId\":"@ + json_string(input.stage_id@) + "}"@
}

/// A canvas as sorted-key JSON.
pub open spec fn canvas_json(canvas: TimelineCanvasData) -> Seq<char> {
    "{\"frameRateDenominator\":"@ + decimal(canvas.frame_rate_denominator as nat)
        + ",\"frameRateNumerator\":"@ + decimal(canvas.frame_rate_numerator as nat) + ",\"height\":"@
        + decimal(canvas.height as nat) + ",\"width\":"@ + decimal(canvas.width as nat) + "}"@
}

/// A safe area as sorted-key JSON.
pub open spec fn safe_area_json(area: TimelineSafeAreaData) -> Seq<char> {
    "{\"height\":"@ + decimal(area.height as nat) + ",\"width\":"@ + decimal(area.width as nat)
        + ",\"x\":"@ + decimal(area.x as nat) + ",\"y\":"@ + decimal(area.y as nat) + "}"@
}

/// The canonical hash of a document's canonical JSON bytes.
pub open spec fn canonical_hash_spec(bytes: Seq<u8>) -> Seq<char> {
    "sha256:"@ + hex_lower(sha256_spec(bytes))
}

/// What a timeline build request is identified by, as canonical JSON (keys
/// sorted, no whitespace): the request version, the project, the run, the
/// stable seed, the canonical hashes of the three source documents, the three
/// frozen inputs, the canvas, the safe area and the configuration snapshot
/// (already canonical JSON text).
pub open spec fn timeline_request_text(
    project_id: Seq<char>,
    run_id: Seq<char>,
    stable_seed: Seq<char>,
    audio_document: Seq<u8>,
    captions_document: Seq<u8>,
    scene_plan_document: Seq<u8>,
    audio_input: FrozenArtifactInputData,
    captions_input: FrozenArtifactInputData,
    scene_plan_input: FrozenArtifactInputData,
    canvas: TimelineCanvasData,
    safe_area: TimelineSafeAreaData,
    config_snapshot: Seq<char>,
) -> Seq<char> {
    "{\"audioDocumentHash\":"@ + json_string(canonical_hash_spec(audio_document)) + ",\"canvas\":"@
        + canvas_json(canvas) + ",\"captionsDocumentHash\":"@ + json_string(
        canonical_hash_spec(captions_document),
    ) + ",\"configSnapshot\":"@ + config_snapshot + ",\"inputRefs\":["@ + input_ref_json(
        project_id,
        audio_input,
    ) + ","@ + input_ref_json(project_id, captions_input) + ","@ + input_ref_json(
        project_id,
        scene_plan_input,
    ) + "],\"projectId\":"@ + json_string(project_id) + ",\"runId\":"@ + json_string(run_id)
        + ",\"safeArea\":"@ + safe_area_json(safe_area) + ",\"scenePlanDocumentHash\":"@ + json_string(
        canonical_hash_spec(scene_plan_document),
    ) + ",\"stableSeed\":"@ + json_string(stable_seed) + ",\"version\":1}"@
}

/// Appends `c` as JSON writes it inside a string.
fn push_json_char(text: &mut String, c: char)
    ensures
        final(text)@ == old(text)@ + json_char(c),
{
    let code = c as u32;
    if c == '"' {
        push_char(text, '\\');
        push_char(text, '"');
    } else if c == '\\' {
        push_char(text, '\\');
        push_char(text, '\\');
    } else if c == '\u{8}' {
        push_char(text, '\\');
        push_char(text, 'b');
    } else if c == '\u{c}' {
        push_char(text, '\\');
        push_char(text, 'f');
    } else if c == '\n' {
        push_char(text, '\\');
        push_char(text, 'n');
    } else if c == '\r' {
        push_char(text, '\\');
        push_char(text, 'r');
    } else if c == '\t' {
        push_char(text, '\\');
        push_char(text, 't');
    } else if code < 0x20 {
        push_char(text, '\\');
        push_char(text, 'u');
        push_char(text, '0');
        push_char(text, '0');
        push_char(text, lower_nibble_char((code / 16) as u8));
        push_char(text, lower_nibble_char((code % 16) as u8));
    } else {
        push_char(text, c);
    }
    assert(final(text)@ =~= old(text)@ + json_char(c));
}

/// Appends `value` as a JSON string.
pub fn push_json_string(text: &mut String, value: &str)
    ensures
        final(text)@ == old(text)@ + json_string(value@),
{
    let chars = chars_of(value);
    let ghost start = text@;
    push_char(text, '"');
    let mut i: usize = 0;
    while i < chars.len()
        invariant
            chars@ == value@,
            0 <= i <= chars@.len(),
            text@ == start + seq!['"'] + json_escape(chars@.take(i as int)),
        decreases chars@.len() - i,
    {
        assert(chars@.take(i + 1).drop_last() =~= chars@.take(i as int));
        push_json_char(text, chars[i]);
        i = i + 1;
    }
    assert(chars@.take(chars@.len() as int) =~= chars@);
    push_char(text, '"');
    assert(text@ =~= start + json_string(value@));
}

/// Appends a JSON array of the strings `items`.
pub(crate) fn push_json_string_array(text: &mut String, items: &Vec<String>)
    ensures
        final(text)@ == old(text)@ + json_string_array(texts(items@)),
{
    let ghost start = text@;
    push_char(text, '[');
    let mut i: usize = 0;
    while i < items.len()
        invariant
            0 <= i <= items@.len(),
            text@ == start + seq!['['] + json_string_items(texts(items@).take(i as int)),
        decreases items@.len() - i,
    {
        let ghost before = text@;
        assert(texts(items@).take(i + 1).drop_last() =~= texts(items@).take(i as int));
        assert(texts(items@).take(i + 1).last() == items@[i as int]@);
        if i > 0 {
            push_char(text, ',');
        }
        push_json_string(text, items[i].as_str());
        proof {
            if i == 0 {
                assert(texts(items@).take(1)[0] == items@[0]@);
                assert(text@ =~= start + seq!['['] + json_string_items(texts(items@).take(1)));
            } else {
                assert(text@ =~= start + seq!['['] + json_string_items(texts(items@).take(i + 1)));
            }
        }
        i = i + 1;
    }
    assert(texts(items@).take(items@.len() as int) =~= texts(items@));
    push_char(text, ']');
    assert(text@ =~= start + json_string_array(texts(items@)));
}

/// Appends a frozen input as the JSON object a timeline records for it.
fn push_input_ref(text: &mut String, project_id: &str, input: &FrozenArtifactInputData)
    ensures
        final(text)@ == old(text)@ + input_ref_json(project_id@, *input),
{
    let ghost start = text@;
    text.append("{\"artifactId\":");
    push_json_string(text, input.artifact_id.as_str());
    text.append(",\"claimIds\":");
    push_json_string_array(text, &input.claim_ids);
    text.append(",\"contentHash\":");
    push_json_string(text, input.content_hash.as_str());
    text.append(",\"evidenceRefs\":");
    push_json_string_array(text, &input.evidence_refs);
    text.append(",\"projectId\":");
    push_json_string(text, project_id);
    text.append(",\"reviewRecordId\":");
    push_json_string(text, input.review_record_id.as_str());
    text.append(",\"runId\":");
    push_json_string(text, input.run_id.as_str());
    text.append(",\"stageId\":");
    push_json_string(text, input.stage_id.as_str());
    text.append("}");
    assert(text@ =~= start + input_ref_json(project_id@, *input));
}

pub(crate) fn push_canvas(text: &mut String, canvas: TimelineCanvasData)
    ensures
        final(text)@ == old(text)@ + canvas_json(canvas),
{
    let ghost start = text@;
    text.append("{\"frameRateDenominator\":");
    push_decimal(text, canvas.frame_rate_denominator as u64);
    text.append(",\"frameRateNumerator\":");
    push_decimal(text, canvas.frame_rate_numerator as u64);
    text.append(",\"height\":");
    push_decimal(text, canvas.height as u64);
    text.append(",\"width\":");
    push_decimal(text, canvas.width as u64);
    text.append("}");
    assert(text@ =~= start + canvas_json(canvas));
}

pub(crate) fn push_safe_area(text: &mut String, area: TimelineSafeAreaData)
    ensures
        final(text)@ == old(text)@ + safe_area_json(area),
{
    let ghost start = text@;
    text.append("{\"height\":");
    push_decimal(text, area.height as u64);
    text.append(",\"width\":");
    push_decimal(text, area.width as u64);
    text.append(",\"x\":");
    push_decimal(text, area.x as u64);
    text.append(",\"y\":");
    push_decimal(text, area.y as u64);
    text.append("}");
    assert(text@ =~= start + safe_area_json(area));
}

/// The canonical JSON text of a timeline build request (see
/// [`timeline_request_text`]); the document hashes are the SHA-256 digests of
/// the documents' canonical JSON bytes.
pub fn timeline_request(
    project_id: &str,
    run_id: &str,
    stable_seed: &str,
    audio_document: &[u8],
    captions_document: &[u8],
    scene_plan_document: &[u8],
    audio_input: &FrozenArtifactInputData,
    captions_input: &FrozenArtifactInputData,
    scene_plan_input: &FrozenArtifactInputData,
    canvas: TimelineCanvasData,
    safe_area: TimelineSafeAreaData,
    config_snapshot: &str,
) -> (request: String)
    ensures
        request@ == timeline_request_text(
            project_id@,
            run_id@,
            stable_seed@,
            audio_document@,
            captions_document@,
            scene_plan_document@,
            *audio_input,
            *captions_input,
            *scene_plan_input,
            canvas,
            safe_area,
            config_snapshot@,
        ),
{
    let audio_hash = content_digest(audio_document);
    let captions_hash = content_digest(captions_document);
    let scene_plan_hash = content_digest(scene_plan_document);
    let mut text = String::new();
    text.append("{\"audioDocumentHash\":");
    push_json_string(&mut text, audio_hash.as_str());
    text.append(",\"canvas\":");
    push_canvas(&mut text, canvas);
    text.append(",\"captionsDocumentHash\":");
    push_json_string(&mut text, captions_hash.as_str());
    text.append(",\"configSnapshot\":");
    text.append(config_snapshot);
    text.append(",\"inputRefs\":[");
    push_input_ref(&mut text, project_id, audio_input);
    text.append(",");
    push_input_ref(&mut text, project_id, captions_input);
    text.append(",");
    push_input_ref(&mut text, project_id, scene_plan_input);
    text.append("],\"projectId\":");
    push_json_string(&mut text, project_id);
    text.append(",\"runId\":");
    push_json_string(&mut text, run_id);
    text.append(",\"safeArea\":");
    push_safe_area(&mut text, safe_area);
    text.append(",\"scenePlanDocumentHash\":");
    push_json_string(&mut text, scene_plan_hash.as_str());
    text.append(",\"stableSeed\":");
    push_json_string(&mut text, stable_seed);
    text.append(",\"version\":1}");
    assert(text@ =~= timeline_request_text(
        project_id@,
        run_id@,
        stable_seed@,
        audio_document@,
        captions_document@,
        scene_plan_document@,
        *audio_input,
        *captions_input,
        *scene_plan_input,
        canvas,
        safe_area,
        config_snapshot@,
    ));
    text
}

} // verus!
