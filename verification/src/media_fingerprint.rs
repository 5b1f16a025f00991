use vstd::prelude::*;
use vstd::string::StringSliceAdditionalSpecFns;
use vstd::utf8::encode_utf8;

use crate::digest::content_digest;
use crate::identifiers::texts;
use crate::media_requests::{ImportAudioOptions, ImportCaptionsOptions};
use crate::media_types::{
    AuthorizationRecordInputData, FrozenArtifactInputData, MediaRightsData,
    VoiceAuthorizationApplicabilityData,
};
use crate::storage_rules::{decimal, push_decimal};
use crate::text::push_char;
use crate::timeline_request::{
    canonical_hash_spec, json_string, json_string_array, push_json_string, push_json_string_array,
};

verus! {

/// A frozen input as sorted-key JSON.
pub open spec fn frozen_input_json(input: FrozenArtifactInputData) -> Seq<char> {
    "{\"artifactId\":"@ + json_string(input.artifact_id@) + ",\"claimIds\":"@ + json_string_array(
        texts(input.claim_ids@),
    ) + ",\"contentHash\":"@ + json_string(input.content_hash@) + ",\"evidenceRefs\":"@
        + json_string_array(texts(input.evidence_refs@)) + ",\"reviewRecordId\":"@ + json_string(
        input.review_record_id@,
    ) + ",\"runId\":"@ + json_string(input.run_id@) + ",\"stageId\":"@ + json_string(
        input.stage_id@,
    ) + "}"@
}

/// An authorization record as sorted-key JSON.
pub open spec fn authorization_record_json(record: AuthorizationRecordInputData) -> Seq<char> {
    "{\"authorizationRecordId\":"@ + json_string(record.authorization_record_id@)
        + ",\"authorizationType\":"@ + json_string(record.authorization_type@) + ",\"evidenceRef\":"@
        + json_string(record.evidence_ref@) + ",\"grantor\":"@ + json_string(record.grantor@)
        + ",\"recordedAt\":"@ + json_string(record.recorded_at@) + ",\"scope\":"@ + json_string(
        record.scope@,
    ) + "}"@
}

/// The items of a JSON array of authorization records, separated by commas.
pub open spec fn authorization_items(records: Seq<AuthorizationRecordInputData>) -> Seq<char>
    decreases records.len(),
{
    if records.len() == 0 {
        Seq::empty()
    } else if records.len() == 1 {
        authorization_record_json(records[0])
    } else {
        authorization_items(records.drop_last()) + seq![','] + authorization_record_json(
            records.last(),
        )
    }
}

/// The voice authorization statement as sorted-key JSON.
pub open spec fn voice_authorization_json(voice: VoiceAuthorizationApplicabilityData) -> Seq<char> {
    "{\"applicability\":"@ + json_string(voice.applicability@) + ",\"reason\":"@ + json_string(
        voice.reason@,
    ) + "}"@
}

/// Media rights as sorted-key JSON.
pub open spec fn rights_json(rights: MediaRightsData) -> Seq<char> {
    "{\"attributionText\":"@ + json_string(rights.attribution_text@) + ",\"author\":"@ + json_string(
        rights.author@,
    ) + ",\"authorizationRecords\":["@ + authorization_items(rights.authorization_records@)
        + "],\"licenseId\":"@ + json_string(rights.license_id@) + ",\"ownership\":"@ + json_string(
        rights.ownership@,
    ) + ",\"rightsStatement\":"@ + json_string(rights.rights_statement@)
        + ",\"voiceAuthorization\":"@ + voice_authorization_json(rights.voice_authorization) + "}"@
}

/// A string that may be absent, as JSON: the string, or `null`.
pub open spec fn optional_json_string(value: Option<String>) -> Seq<char> {
    match value {
        Some(text) => json_string(text@),
        None => "null"@,
    }
}

/// What identifies an audio import, as canonical JSON (keys sorted, no
/// whitespace): the request version, the operation, the project, the run, the
/// source's file name and expected hash, the script input, the rights, the
/// byte limit and the configuration snapshot.
pub open spec fn audio_request_text(options: ImportAudioOptions, source_file_name: Seq<char>) -> Seq<
    char,
> {
    "{\"configSnapshot\":"@ + options.config_snapshot@ + ",\"limits\":{\"maxBytes\":"@ + decimal(
        options.limits.max_bytes as nat,
    ) + "},\"operation\":\"import_audio\",\"projectId\":"@ + json_string(
        options.expected_project_id@,
    ) + ",\"rights\":"@ + rights_json(options.rights) + ",\"runId\":"@ + json_string(
        options.run_id@,
    ) + ",\"scriptInput\":"@ + frozen_input_json(options.script_input)
        + ",\"source\":{\"expectedSourceContentHash\":"@ + optional_json_string(
        options.expected_source_content_hash,
    ) + ",\"sourceFileName\":"@ + json_string(source_file_name) + "},\"version\":1}"@
}

/// What identifies a caption import, as canonical JSON: as for audio, plus
/// the audio input and duration, the cue limits and the source's actual hash.
pub open spec fn captions_request_text(
    options: ImportCaptionsOptions,
    source_file_name: Seq<char>,
    source_content_hash: Seq<char>,
) -> Seq<char> {
    "{\"audioDurationMs\":"@ + decimal(options.audio_duration_ms as nat) + ",\"audioInput\":"@
        + frozen_input_json(options.audio_input) + ",\"configSnapshot\":"@ + options.config_snapshot@
        + ",\"limits\":{\"maxBytes\":"@ + decimal(options.limits.max_bytes as nat)
        + ",\"maxCueCount\":"@ + decimal(options.limits.max_cue_count as nat)
        + ",\"maxCueTextBytes\":"@ + decimal(options.limits.max_cue_text_bytes as nat)
        + "},\"operation\":\"import_captions\",\"projectId\":"@ + json_string(
        options.expected_project_id@,
    ) + ",\"rights\":"@ + rights_json(options.rights) + ",\"runId\":"@ + json_string(
        options.run_id@,
    ) + ",\"scriptInput\":"@ + frozen_input_json(options.script_input)
        + ",\"source\":{\"expectedSourceContentHash\":"@ + optional_json_string(
        options.expected_source_content_hash,
    ) + ",\"sourceContentHash\":"@ + json_string(source_content_hash) + ",\"sourceFileName\":"@
        + json_string(source_file_name) + "},\"version\":1}"@
}

pub(crate) fn push_frozen_input(text: &mut String, input: &FrozenArtifactInputData)
    ensures
        final(text)@ == old(text)@ + frozen_input_json(*input),
{
    let ghost start = text@;
    text.append("{\"artifactId\":");
    push_json_string(text, input.artifact_id.as_str());
    text.append(",\"claimIds\":");
    push_json_string_array(text, &input.claim_ids);
    text.append(",\"contentHash\":");
    push_json_string(text, input.content_hash.as_str());
    text.append(",\"evidenceRefs\":");
    push_json_string_array(text, &input.evidence_refs);
    text.append(",\"reviewRecordId\":");
    push_json_string(text, input.review_record_id.as_str());
    text.append(",\"runId\":");
    push_json_string(text, input.run_id.as_str());
    text.append(",\"stageId\":");
    push_json_string(text, input.stage_id.as_str());
    text.append("}");
    assert(text@ =~= start + frozen_input_json(*input));
}

fn push_authorization_record(text: &mut String, record: &AuthorizationRecordInputData)
    ensures
        final(text)@ == old(text)@ + authorization_record_json(*record),
{
    let ghost start = text@;
    text.append("{\"authorizationRecordId\":");
    push_json_string(text, record.authorization_record_id.as_str());
    text.append(",\"authorizationType\":");
    push_json_string(text, record.authorization_type.as_str());
    text.append(",\"evidenceRef\":");
    push_json_string(text, record.evidence_ref.as_str());
    text.append(",\"grantor\":");
    push_json_string(text, record.grantor.as_str());
    text.append(",\"recordedAt\":");
    push_json_string(text, record.recorded_at.as_str());
    text.append(",\"scope\":");
    push_json_string(text, record.scope.as_str());
    text.append("}");
    assert(text@ =~= start + authorization_record_json(*record));
}

fn push_authorization_items(text: &mut String, records: &Vec<AuthorizationRecordInputData>)
    ensures
        final(text)@ == old(text)@ + authorization_items(records@),
{
    let ghost start = text@;
    let mut i: usize = 0;
    while i < records.len()
        invariant
            0 <= i <= records@.len(),
            text@ == start + authorization_items(records@.take(i as int)),
        decreases records@.len() - i,
    {
        assert(records@.take(i + 1).drop_last() =~= records@.take(i as int));
        if i > 0 {
            push_char(text, ',');
        }
        push_authorization_record(text, &records[i]);
        proof {
            if i == 0 {
                assert(records@.take(1)[0] == records@[0]);
            }
            assert(text@ =~= start + authorization_items(records@.take(i + 1)));
        }
        i = i + 1;
    }
    assert(records@.take(records@.len() as int) =~= records@);
}

#[verifier::rlimit(80)]
#[verifier::spinoff_prover]
fn push_rights(text: &mut String, rights: &MediaRightsData)
    ensures
        final(text)@ == old(text)@ + rights_json(*rights),
{
    let ghost start = text@;
    text.append("{\"attributionText\":");
    push_json_string(text, rights.attribution_text.as_str());
    text.append(",\"author\":");
    push_json_string(text, rights.author.as_str());
    text.append(",\"authorizationRecords\":[");
    push_authorization_items(text, &rights.authorization_records);
    text.append("],\"licenseId\":");
    push_json_string(text, rights.license_id.as_str());
    text.append(",\"ownership\":");
    push_json_string(text, rights.ownership.as_str());
    text.append(",\"rightsStatement\":");
    push_json_string(text, rights.rights_statement.as_str());
    text.append(",\"voiceAuthorization\":");
    push_voice_authorization(text, &rights.voice_authorization);
    text.append("}");
    assert(text@ =~= start + rights_json(*rights));
}

fn push_voice_authorization(text: &mut String, voice: &VoiceAuthorizationApplicabilityData)
    ensures
        final(text)@ == old(text)@ + voice_authorization_json(*voice),
{
    let ghost start = text@;
    text.append("{\"applicability\":");
    push_json_string(text, voice.applicability.as_str());
    text.append(",\"reason\":");
    push_json_string(text, voice.reason.as_str());
    text.append("}");
    assert(text@ =~= start + voice_authorization_json(*voice));
}

fn push_optional_string(text: &mut String, value: &Option<String>)
    ensures
        final(text)@ == old(text)@ + optional_json_string(*value),
{
    match value {
        Some(inner) => push_json_string(text, inner.as_str()),
        None => text.append("null"),
    }
}

/// The canonical JSON text of an audio import (see [`audio_request_text`]).
pub fn audio_request(options: &ImportAudioOptions, source_file_name: &str) -> (request: String)
    ensures
        request@ == audio_request_text(*options, source_file_name@),
{
    let mut text = String::new();
    text.append("{\"configSnapshot\":");
    text.append(options.config_snapshot.as_str());
    text.append(",\"limits\":{\"maxBytes\":");
    push_decimal(&mut text, options.limits.max_bytes);
    text.append("},\"operation\":\"import_audio\",\"projectId\":");
    push_json_string(&mut text, options.expected_project_id.as_str());
    text.append(",\"rights\":");
    push_rights(&mut text, &options.rights);
    text.append(",\"runId\":");
    push_json_string(&mut text, options.run_id.as_str());
    text.append(",\"scriptInput\":");
    push_frozen_input(&mut text, &options.script_input);
    text.append(",\"source\":{\"expectedSourceContentHash\":");
    push_optional_string(&mut text, &options.expected_source_content_hash);
    text.append(",\"sourceFileName\":");
    push_json_string(&mut text, source_file_name);
    text.append("},\"version\":1}");
    assert(text@ =~= audio_request_text(*options, source_file_name@));
    text
}

/// The semantic fingerprint of an audio import: the canonical hash of
/// [`audio_request_text`]. Two requests with one fingerprint ask for the
/// same import.
pub fn audio_request_fingerprint(options: &ImportAudioOptions, source_file_name: &str) -> (fingerprint:
    String)
    ensures
        fingerprint@ == canonical_hash_spec(encode_utf8(audio_request_text(*options, source_file_name@))),
{
    let request = audio_request(options, source_file_name);
    content_digest(request.as_str().as_bytes())
}

/// The canonical JSON text of a caption import (see [`captions_request_text`]).
pub fn captions_request(
    options: &ImportCaptionsOptions,
    source_file_name: &str,
    source_content_hash: &str,
) -> (request: String)
    ensures
        request@ == captions_request_text(*options, source_file_name@, source_content_hash@),
{
    let mut text = String::new();
    text.append("{\"audioDurationMs\":");
    push_decimal(&mut text, options.audio_duration_ms);
    text.append(",\"audioInput\":");
    push_frozen_input(&mut text, &options.audio_input);
    text.append(",\"configSnapshot\":");
    text.append(options.config_snapshot.as_str());
    text.append(",\"limits\":{\"maxBytes\":");
    push_decimal(&mut text, options.limits.max_bytes);
    text.append(",\"maxCueCount\":");
    push_decimal(&mut text, options.limits.max_cue_count);
    text.append(",\"maxCueTextBytes\":");
    push_decimal(&mut text, options.limits.max_cue_text_bytes);
    text.append("},\"operation\":\"import_captions\",\"projectId\":");
    push_json_string(&mut text, options.expected_project_id.as_str());
    text.append(",\"rights\":");
    push_rights(&mut text, &options.rights);
    text.append(",\"runId\":");
    push_json_string(&mut text, options.run_id.as_str());
    text.append(",\"scriptInput\":");
    push_frozen_input(&mut text, &options.script_input);
    text.append(",\"source\":{\"expectedSourceContentHash\":");
    push_optional_string(&mut text, &options.expected_source_content_hash);
    text.append(",\"sourceContentHash\":");
    push_json_string(&mut text, source_content_hash);
    text.append(",\"sourceFileName\":");
    push_json_string(&mut text, source_file_name);
    text.append("},\"version\":1}");
    assert(text@ =~= captions_request_text(*options, source_file_name@, source_content_hash@));
    text
}

/// The semantic fingerprint of a caption import: the canonical hash of
/// [`captions_request_text`].
pub fn captions_request_fingerprint(
    options: &ImportCaptionsOptions,
    source_file_name: &str,
    source_content_hash: &str,
) -> (fingerprint: String)
    ensures
        fingerprint@ == canonical_hash_spec(
            encode_utf8(captions_request_text(*options, source_file_name@, source_content_hash@)),
        ),
{
    let request = captions_request(options, source_file_name, source_content_hash);
    content_digest(request.as_str().as_bytes())
}

} // verus!
