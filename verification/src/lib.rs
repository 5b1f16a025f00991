//! Verified core rules of the NarraCut media, storage, project and renderer services.

pub mod media_error;
pub mod renderer_error;
pub mod storage_error;
pub mod timing;
pub mod text;
pub mod segmentation;
pub mod identifiers;
pub mod hex;
pub mod uri;
pub mod staged_source;
pub mod digest;
pub mod artifact_graph;
pub mod artifact_index;
pub mod media_types;
pub mod storage_types;
pub mod renderer_types;
pub mod ordered_set;
pub mod timeline;
pub mod timeline_document;
pub mod project_error;
pub mod storage_rules;
pub mod services;
pub mod media_rules;
pub mod caption_trace;
pub mod caption_build;
pub mod renderer_rules;
pub mod timeline_build;
pub mod timeline_assembly;
pub mod project_rules;
pub mod cache_rules;
pub mod storage_requests;
pub mod job_index;
pub mod artifact_checks;
pub mod media_read;
pub mod caption_script;
pub mod source_copy;
pub mod media_requests;
pub mod base_inputs;
pub mod provenance_union;
pub mod media_receipts;
pub mod path_walk;
pub mod timeline_request;
pub mod content_hash;
pub mod media_fingerprint;
pub mod audio_import;
pub mod timeline_generation;
pub mod captions_import;
pub mod scene_snapshot;
pub mod media_save;
pub mod render_commit;
pub mod scene_plan_generation;
pub mod hash_text;
pub mod timeline_save;
pub mod timeline_save_run;
pub mod scene_plan_save;
pub mod scene_plan_sources;
pub mod render_prepare;
pub mod render_commit_run;
pub mod staged_requests;
pub mod captions_document;
