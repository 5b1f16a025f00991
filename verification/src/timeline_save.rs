use vstd::prelude::*;
use vstd::string::StringSliceAdditionalSpecFns;
use vstd::utf8::encode_utf8;

use crate::digest::content_digest;
use crate::hash_text::lemma_hash_text_splits_after_prefix;
use crate::media_rules::{byte_slice, stable_media_id};
use crate::media_types::{SaveTimelineOptions, TimelineEditData};
use crate::storage_rules::{decimal, push_decimal};
use crate::text::push_char;
use crate::timeline_request::{
    canonical_hash_spec, json_string, push_json_string, push_safe_area, safe_area_json,
};

verus! {

/// One timeline edit as canonical JSON: its operation tag and its fields.
pub open spec fn edit_json(edit: TimelineEditData) -> Seq<char> {
    match edit {
        TimelineEditData::MoveSceneBoundary { left_scene_id, right_scene_id, boundary_ms } =>
            "{\"boundary_ms\":"@ + decimal(boundary_ms as nat) + ",\"left_scene_id\":"@
            + json_string(left_scene_id@) + ",\"operation\":\"move_scene_boundary\",\"right_scene_id\":"@
            + json_string(right_scene_id@) + "}"@,
        TimelineEditData::SetSafeArea { safe_area } =>
            "{\"operation\":\"set_safe_area\",\"safe_area\":"@ + safe_area_json(safe_area) + "}"@,
        TimelineEditData::SetCaptionVisibility { visible } =>
            "{\"operation\":\"set_caption_visibility\",\"visible\":"@ + (if visible {
            "true"@
        } else {
            "false"@
        }) + "}"@,
    }
}

/// The items of a JSON array of edits, separated by commas.
pub open spec fn edit_items(edits: Seq<TimelineEditData>) -> Seq<char>
    decreases edits.len(),
{
    if edits.len() == 0 {
        Seq::empty()
    } else if edits.len() == 1 {
        edit_json(edits[0])
    } else {
        edit_items(edits.drop_last()) + seq![','] + edit_json(edits.last())
    }
}

/// What identifies a timeline save, as canonical JSON (keys sorted, no
/// whitespace): the request version, the operation, the project, the run, the
/// base artifact and its content hash, the edits and the change summary.
pub open spec fn timeline_save_request_text(options: SaveTimelineOptions, base_content_hash: Seq<char>) -> Seq<
    char,
> {
    save_request_text_of(
        options.expected_project_id@,
        options.run_id@,
        options.base_artifact_id@,
        base_content_hash,
        options.edits@,
        options.change_summary@,
    )
}

/// [`timeline_save_request_text`] of the request's parts.
pub open spec fn save_request_text_of(
    project_id: Seq<char>,
    run_id: Seq<char>,
    base_artifact_id: Seq<char>,
    base_content_hash: Seq<char>,
    edits: Seq<TimelineEditData>,
    change_summary: Seq<char>,
) -> Seq<char> {
    "{\"baseArtifactId\":"@ + json_string(base_artifact_id) + ",\"baseContentHash\":"@
        + json_string(base_content_hash) + ",\"changeSummary\":"@ + json_string(change_summary)
        + ",\"edits\":["@ + edit_items(edits) + "],\"operation\":\"save_timeline\",\"projectId\":"@
        + json_string(project_id) + ",\"runId\":"@ + json_string(run_id) + ",\"version\":1}"@
}

fn push_edit(text: &mut String, edit: &TimelineEditData)
    ensures
        final(text)@ == old(text)@ + edit_json(*edit),
{
    let ghost start = text@;
    match edit {
        TimelineEditData::MoveSceneBoundary { left_scene_id, right_scene_id, boundary_ms } => {
            text.append("{\"boundary_ms\":");
            push_decimal(text, *boundary_ms);
            text.append(",\"left_scene_id\":");
            push_json_string(text, left_scene_id.as_str());
            text.append(",\"operation\":\"move_scene_boundary\",\"right_scene_id\":");
            push_json_string(text, right_scene_id.as_str());
            text.append("}");
        },
        TimelineEditData::SetSafeArea { safe_area } => {
            text.append("{\"operation\":\"set_safe_area\",\"safe_area\":");
            push_safe_area(text, *safe_area);
            text.append("}");
        },
        TimelineEditData::SetCaptionVisibility { visible } => {
            text.append("{\"operation\":\"set_caption_visibility\",\"visible\":");
            if *visible {
                text.append("true");
            } else {
                text.append("false");
            }
            text.append("}");
        },
    }
    assert(text@ =~= start + edit_json(*edit));
}

fn push_edit_items(text: &mut String, edits: &Vec<TimelineEditData>)
    ensures
        final(text)@ == old(text)@ + edit_items(edits@),
{
    let ghost start = text@;
    let mut i: usize = 0;
    while i < edits.len()
        invariant
            0 <= i <= edits@.len(),
            text@ == start + edit_items(edits@.take(i as int)),
        decreases edits@.len() - i,
    {
        assert(edits@.take(i + 1).drop_last() =~= edits@.take(i as int));
        if i > 0 {
            push_char(text, ',');
        }
        push_edit(text, &edits[i]);
        proof {
            if i == 0 {
                assert(edits@.take(1)[0] == edits@[0]);
            }
            assert(text@ =~= start + edit_items(edits@.take(i + 1)));
        }
        i = i + 1;
    }
    assert(edits@.take(edits@.len() as int) =~= edits@);
}

/// The canonical JSON text of a timeline save (see
/// [`timeline_save_request_text`]).
pub fn timeline_save_request(options: &SaveTimelineOptions, base_content_hash: &str) -> (request: String)
    ensures
        request@ == timeline_save_request_text(*options, base_content_hash@),
{
    save_request_of(
        options.expected_project_id.as_str(),
        options.run_id.as_str(),
        options.base_artifact_id.as_str(),
        base_content_hash,
        &options.edits,
        options.change_summary.as_str(),
    )
}

fn save_request_of(
    project_id: &str,
    run_id: &str,
    base_artifact_id: &str,
    base_content_hash: &str,
    edits: &Vec<TimelineEditData>,
    change_summary: &str,
) -> (request: String)
    ensures
        request@ == save_request_text_of(
            project_id@,
            run_id@,
            base_artifact_id@,
            base_content_hash@,
            edits@,
            change_summary@,
        ),
{
    let mut text = String::new();
    text.append("{\"baseArtifactId\":");
    push_json_string(&mut text, base_artifact_id);
    text.append(",\"baseContentHash\":");
    push_json_string(&mut text, base_content_hash);
    text.append(",\"changeSummary\":");
    push_json_string(&mut text, change_summary);
    text.append(",\"edits\":[");
    push_edit_items(&mut text, edits);
    text.append("],\"operation\":\"save_timeline\",\"projectId\":");
    push_json_string(&mut text, project_id);
    text.append(",\"runId\":");
    push_json_string(&mut text, run_id);
    text.append(",\"version\":1}");
    assert(text@ =~= save_request_text_of(
        project_id@,
        run_id@,
        base_artifact_id@,
        base_content_hash@,
        edits@,
        change_summary@,
    ));
    text
}

/// The fingerprint of a save request given by its parts, and the identifier
/// of the edited timeline (see [`timeline_save_identity`]).
pub fn save_identity_of(
    project_id: &str,
    run_id: &str,
    base_artifact_id: &str,
    base_content_hash: &str,
    edits: &Vec<TimelineEditData>,
    change_summary: &str,
) -> (identity: (String, String))
    ensures
        identity.0@ == canonical_hash_spec(
            encode_utf8(
                save_request_text_of(
                    project_id@,
                    run_id@,
                    base_artifact_id@,
                    base_content_hash@,
                    edits@,
                    change_summary@,
                ),
            ),
        ),
        identity.1@ == "timeline_edit"@ + "_"@ + byte_slice(
            identity.0@,
            7,
            encode_utf8(identity.0@).len() as int,
        ),
{
    let request = save_request_of(
        project_id,
        run_id,
        base_artifact_id,
        base_content_hash,
        edits,
        change_summary,
    );
    let fingerprint = content_digest(request.as_str().as_bytes());
    proof {
        lemma_hash_text_splits_after_prefix(encode_utf8(request@));
    }
    let timeline_id = stable_media_id("timeline_edit", fingerprint.as_str());
    (fingerprint, timeline_id)
}

/// The identity of a timeline save: its fingerprint, the canonical hash of
/// [`timeline_save_request_text`], and the identifier of the edited
/// timeline, `timeline_edit_` and the fingerprint's digits.
pub fn timeline_save_identity(options: &SaveTimelineOptions, base_content_hash: &str) -> (identity: (
    String,
    String,
))
    ensures
        identity.0@ == canonical_hash_spec(
            encode_utf8(timeline_save_request_text(*options, base_content_hash@)),
        ),
        identity.1@ == "timeline_edit"@ + "_"@ + byte_slice(
            identity.0@,
            7,
            encode_utf8(identity.0@).len() as int,
        ),
{
    save_identity_of(
        options.expected_project_id.as_str(),
        options.run_id.as_str(),
        options.base_artifact_id.as_str(),
        base_content_hash,
        &options.edits,
        options.change_summary.as_str(),
    )
}

} // verus!
