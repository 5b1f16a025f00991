use narracut_core::digest::stable_mapping_id;
use narracut_core::digest::{
    media_save_job_idempotency_key, stable_audio_receipt_id, stable_captions_receipt_id,
    stable_scene_plan_receipt_id, stable_scene_plan_save_receipt_id, stable_timeline_receipt_id,
    stable_timeline_save_receipt_id,
};
use narracut_core::media_rules::{internal_source_uri, stable_media_artifact_id, stable_media_id};
use narracut_core::renderer_rules::{scene_snapshot_id, stable_render_artifact_id};
use sha2::{Digest, Sha256};

fn hex(bytes: &[u8]) -> String {
    let digest = Sha256::digest(bytes);
    digest.iter().map(|byte| format!("{byte:02x}")).collect()
}

#[test]
fn media_receipt_ids_hash_project_operation_and_key() {
    let expected = |operation: &str| hex(format!("narracut:media-receipt:v1\0project_001\0{operation}\0key-0001").as_bytes());
    assert_eq!(stable_audio_receipt_id("project_001", "key-0001"), expected("import_audio"));
    assert_eq!(stable_captions_receipt_id("project_001", "key-0001"), expected("import_captions"));
    assert_eq!(stable_timeline_receipt_id("project_001", "key-0001"), expected("generate_timeline"));
    assert_eq!(stable_scene_plan_receipt_id("project_001", "key-0001"), expected("generate_scene_plan"));
    assert_eq!(stable_scene_plan_save_receipt_id("project_001", "key-0001"), expected("save_scene_plan"));
    assert_eq!(stable_timeline_save_receipt_id("project_001", "key-0001"), expected("save_timeline"));
    assert_ne!(
        stable_audio_receipt_id("project_001", "key-0001"),
        stable_audio_receipt_id("project_002", "key-0001")
    );
}

#[test]
fn media_save_jobs_have_derived_idempotency_keys() {
    assert_eq!(
        media_save_job_idempotency_key("timeline", "key-0001"),
        format!("media_save_{}", hex(b"narracut:media-save-job:v1\0timeline\0key-0001"))
    );
}

#[test]
fn caption_mapping_ids_hash_cue_level_index_and_text() {
    let mut preimage = b"narracut:caption-mapping:v1\0cue_1\0word".to_vec();
    preimage.extend_from_slice(&3u64.to_le_bytes());
    preimage.extend_from_slice("Alpha".as_bytes());
    assert_eq!(stable_mapping_id("cue_1", "word", 3, "Alpha"), format!("map_{}", hex(&preimage)));
}

#[test]
fn render_and_snapshot_ids_are_stable_hashes() {
    assert_eq!(
        stable_render_artifact_id("job_001", "video"),
        format!("artifact_render_{}", hex(b"renderer-v1\0job_001\0video"))
    );
    assert_eq!(
        scene_snapshot_id("project_001", "sha256:abc", "scene_001"),
        format!("snapshot_{}", hex(b"project_001\0sha256:abc\0scene_001"))
    );
}

#[test]
fn media_ids_and_uris_come_from_fingerprints_and_hashes() {
    let fingerprint = format!("sha256:{}", "0123456789abcdef".repeat(4));
    assert_eq!(
        stable_media_id("run", &fingerprint),
        format!("run_{}", "0123456789abcdef".repeat(4))
    );
    assert_eq!(
        stable_media_artifact_id(&fingerprint),
        format!("artifact_{}", "0123456789abcdef".repeat(2))
    );
    assert_eq!(
        internal_source_uri(&fingerprint, "caption final.srt"),
        format!("narracut:sha256/{}/caption%20final.srt", "0123456789abcdef".repeat(4))
    );
}
