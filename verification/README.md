# narracut_core

The verified core of the NarraCut media, storage, project and renderer
services. `src/` is written in Verus: every function carries a contract and is
proved against it. `app/` is ordinary Rust around the library: file system,
SQLite and trash access, and the serde copies of library types.

## Layout of `src/`

- Text, identifiers and encodings: `text`, `identifiers`, `hex`, `uri`,
  `segmentation`, `timing`.
- Hashing: `digest` (one-shot SHA-256 and the stable identifiers derived from
  it), `content_hash` (streaming hashing and the checks of stored content),
  `media_fingerprint` and `timeline_request` (canonical JSON requests and their
  fingerprints), `hash_text` (the shape of a hash's text).
- Errors and data: `media_error`, `storage_error`, `renderer_error`,
  `project_error`, `media_types`, `storage_types`, `renderer_types`.
- Timelines: `timeline`, `timeline_build`, `timeline_document`,
  `timeline_assembly` (building a timeline from its three source documents),
  `timeline_generation` and `scene_plan_generation` (the decisions of a
  generation, one outside report at a time), `scene_plan_sources` (the checks
  of a scene plan's approved captions and audio), `timeline_save` (the
  identity of a saved edit), `timeline_save_run` and `scene_plan_save` (the
  decisions of a save).
- Media imports and saves: `media_requests`, `media_rules`, `media_receipts`,
  `audio_import` and `captions_import` (the decisions of an import, one
  outside report at a time), `media_save` (the checks of an edit's frozen
  base and inputs, its job's input references and its lease),
  `caption_build`, `caption_trace`, `caption_script`,
  `media_read`, `base_inputs`, `provenance_union`.
- Storage: `storage_rules`, `storage_requests`, `staged_source`,
  `staged_requests` (the checks of a staging or resolving request),
  `source_copy`,
  `path_walk`, `artifact_graph`, `artifact_index`, `artifact_checks`,
  `cache_rules`, `job_index`, `ordered_set`.
- Projects and services: `project_rules`, `services`.
- Renderer: `renderer_rules`, `scene_snapshot` (building and sealing a scene
  snapshot), `render_commit` (the artifacts a render commits),
  `render_prepare` and `render_commit_run` (the decisions of preparing and of
  committing a render).

The processes that alternate outside work with decisions (an audio or caption
import, a timeline or scene plan generation, a timeline or scene plan save,
preparing and committing a render) are state machines: a `start_*`
function checks the request and fixes its fingerprint and receipt, and a
`*_step` function takes the report of the outside work and returns the next
state and the next work to do, or the error the process stops with. The
caller performs the work.

## Trusted items

These are believed, not proved; each names the outside function it stands for.

- `text::push_char`: `String::push`.
- `digest::sha256_digest` with the name `digest::sha256_spec`:
  `sha2::Sha256::digest`, a 32-byte digest that depends on the data alone.
- `content_hash::Sha256State` (a struct whose inside Verus does not read), the
  name `content_hash::sha256_absorbed`, and `sha256_start`, `sha256_update`,
  `sha256_finalize`: `sha2::Sha256`'s `new`, `update` and `finalize`; the
  finalized digest is `sha256_spec` of everything absorbed.
- `job_index::parse_rfc3339_utc` with the name `job_index::rfc3339_utc_fields`:
  `time::OffsetDateTime::parse` with the RFC 3339 format, then
  `checked_to_offset` to UTC.
- `services::TrashBackend`: a trait its users implement; its `move_to_trash`
  promises an answer its `trashed` predicate admits for the path it was given.

## `app/`

- `snapshots`: reading a timeline and a scene plan from JSON for a scene
  snapshot, and the JSON form whose bytes seal it.
- `storage_io`: cache scans and cleanup, bounded directory listings, copying a
  media source into content storage while hashing it, reading stored content
  back and checking it.
- `storage_commands`: recording and listing recent projects, forgetting a
  project, cleaning a project's cache.
- `jobs`: listing indexed jobs from the SQLite index.
- `renders` and `generations`: the loops that run the render preparation and
  commit and the scene plan generation, with the outside work behind a trait
  (`RenderPorts`, `ScenePlanPorts`).
- `captions`: reading a caption script from JSON.
- `trash_backend`: the operating system's trash.
- `wire`: serde copies of library types, with conversions both ways.
