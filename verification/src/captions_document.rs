use vstd::prelude::*;

use crate::caption_build::{CaptionCueRecord, CaptionMapping};
use crate::captions_import::CaptionsImportState;
use crate::timeline_assembly::{frozen_input_document, frozen_view, input_ref_view};
use crate::timeline_document::TimelineInputRef;
use crate::timeline_generation::MEDIA_SCHEMA_VERSION;

verus! {

/// The caption source a captions document was made from.
#[derive(Debug, Clone, PartialEq, Eq)]
pub struct CaptionsSourceRecord {
    pub source_file_name: String,
    pub source_content_hash: String,
    pub byte_length: u64,
}

/// A captions document: the cues and timing mappings of an imported caption
/// source, with the raw artifact it was imported as, the frozen audio and
/// script inputs it was made from, and the configuration it was made with.
/// (The source parser's diagnostics are added where the document is written.)
#[derive(Debug, Clone, PartialEq, Eq)]
pub struct CaptionsDocumentData {
    pub schema_version: String,
    pub document_type: String,
    pub captions_id: String,
    pub project_id: String,
    pub run_id: String,
    pub raw_artifact_id: String,
    pub raw_content_hash: String,
    pub source: CaptionsSourceRecord,
    pub audio_input: TimelineInputRef,
    pub cues: Vec<CaptionCueRecord>,
    pub mappings: Vec<CaptionMapping>,
    pub input_refs: Vec<TimelineInputRef>,
    pub config_snapshot: String,
    pub created_at: String,
}

/// The captions document of an import whose raw source was imported: the
/// import's identity, raw artifact and parsed source, its audio input, the
/// script and audio inputs as its references in that order, its configuration,
/// the given cues and mappings and the given time.
pub open spec fn captions_document_of(
    state: CaptionsImportState,
    cues: Seq<CaptionCueRecord>,
    mappings: Seq<CaptionMapping>,
    created_at: Seq<char>,
    document: CaptionsDocumentData,
) -> bool {
    let project = state.options.expected_project_id@;
    &&& document.schema_version@ == MEDIA_SCHEMA_VERSION@
    &&& document.document_type@ == "captions_media"@
    &&& document.captions_id@ == state.captions_id@
    &&& document.project_id@ == project
    &&& document.run_id@ == state.options.run_id@
    &&& document.raw_artifact_id@ == state.raw_artifact_id@
    &&& document.raw_content_hash@ == state.source_content_hash@
    &&& document.source.source_file_name@ == state.source_file_name@
    &&& document.source.source_content_hash@ == state.source_content_hash@
    &&& document.source.byte_length == state.source_byte_length
    &&& input_ref_view(document.audio_input) == (project, frozen_view(state.options.audio_input))
    &&& document.cues@ == cues
    &&& document.mappings@ == mappings
    &&& document.input_refs@.len() == 2
    &&& input_ref_view(document.input_refs@[0]) == (project, frozen_view(state.options.script_input))
    &&& input_ref_view(document.input_refs@[1]) == (project, frozen_view(state.options.audio_input))
    &&& document.config_snapshot@ == state.options.config_snapshot@
    &&& document.created_at@ == created_at
}

/// Assembles the captions document of an import (see [`captions_document_of`]).
pub fn captions_document(
    state: &CaptionsImportState,
    cues: Vec<CaptionCueRecord>,
    mappings: Vec<CaptionMapping>,
    created_at: String,
) -> (document: CaptionsDocumentData)
    ensures
        captions_document_of(*state, cues@, mappings@, created_at@, document),
{
    let options = &state.options;
    let project_id = options.expected_project_id.as_str();
    let mut input_refs: Vec<TimelineInputRef> = Vec::new();
    input_refs.push(frozen_input_document(project_id, &options.script_input));
    input_refs.push(frozen_input_document(project_id, &options.audio_input));
    CaptionsDocumentData {
        schema_version: MEDIA_SCHEMA_VERSION.to_owned(),
        document_type: "captions_media".to_owned(),
        captions_id: state.captions_id.clone(),
        project_id: options.expected_project_id.clone(),
        run_id: options.run_id.clone(),
        raw_artifact_id: state.raw_artifact_id.clone(),
        raw_content_hash: state.source_content_hash.clone(),
        source: CaptionsSourceRecord {
            source_file_name: state.source_file_name.clone(),
            source_content_hash: state.source_content_hash.clone(),
            byte_length: state.source_byte_length,
        },
        audio_input: frozen_input_document(project_id, &options.audio_input),
        cues,
        mappings,
        input_refs,
        config_snapshot: options.config_snapshot.clone(),
        created_at,
    }
}

} // verus!
