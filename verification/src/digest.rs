use vstd::prelude::*;
use vstd::string::StringSliceAdditionalSpecFns;
use vstd::utf8::encode_utf8;

use sha2::{Digest, Sha256};

use crate::hex::{format_sha256, hex_lower, lowercase_hex};

verus! {

/// The SHA-256 digest of `data`, as the `sha2` crate computes it.
pub uninterp spec fn sha256_spec(data: Seq<u8>) -> Seq<u8>;

/// `sha2::Sha256::digest`: the 32-byte SHA-256 digest of `data`. The contract
/// claims that the result depends on `data` alone and has the digest length
/// of SHA-256; the algorithm itself is not stated.
#[verifier::external_body]
pub(crate) fn sha256_digest(data: &[u8]) -> (digest: Vec<u8>)
    ensures
        digest@ == sha256_spec(data@),
        digest@.len() == 32,
{
    Sha256::digest(data).to_vec()
}

/// The canonical text of the SHA-256 digest of `data`: `sha256:` and 64
/// lowercase hexadecimal digits.
pub fn content_digest(data: &[u8]) -> (text: String)
    ensures
        text@ == "sha256:"@ + hex_lower(sha256_spec(data@)),
{
    let digest = sha256_digest(data);
    format_sha256(&digest)
}

/// The bytes hashed for a media receipt: a versioned tag, the project, the
/// operation and the caller's idempotency key, separated by NUL bytes.
pub open spec fn receipt_preimage(project_id: Seq<char>, operation: Seq<char>, key: Seq<char>) -> Seq<
    u8,
> {
    encode_utf8("narracut:media-receipt:v1\0"@ + project_id + "\0"@ + operation + "\0"@ + key)
}

/// The receipt identifier of a media operation: the lowercase hexadecimal
/// SHA-256 of [`receipt_preimage`].
pub open spec fn receipt_id_for(project_id: Seq<char>, operation: Seq<char>, key: Seq<char>) -> Seq<
    char,
> {
    hex_lower(sha256_spec(receipt_preimage(project_id, operation, key)))
}

/// Computes [`receipt_id_for`].
fn media_receipt_id(project_id: &str, operation: &str, idempotency_key: &str) -> (id: String)
    ensures
        id@ == receipt_id_for(project_id@, operation@, idempotency_key@),
{
    let mut preimage = String::from_str("narracut:media-receipt:v1\0");
    preimage.append(project_id);
    preimage.append("\0");
    preimage.append(operation);
    preimage.append("\0");
    preimage.append(idempotency_key);
    let digest = sha256_digest(preimage.as_str().as_bytes());
    lowercase_hex(&digest)
}

/// The stable receipt identifier of an audio import.
pub fn stable_audio_receipt_id(project_id: &str, idempotency_key: &str) -> (id: String)
    ensures
        id@ == receipt_id_for(project_id@, "import_audio"@, idempotency_key@),
{
    media_receipt_id(project_id, "import_audio", idempotency_key)
}

/// The stable receipt identifier of a caption import.
pub fn stable_captions_receipt_id(project_id: &str, idempotency_key: &str) -> (id: String)
    ensures
        id@ == receipt_id_for(project_id@, "import_captions"@, idempotency_key@),
{
    media_receipt_id(project_id, "import_captions", idempotency_key)
}

/// The stable receipt identifier of a timeline generation.
pub fn stable_timeline_receipt_id(project_id: &str, idempotency_key: &str) -> (id: String)
    ensures
        id@ == receipt_id_for(project_id@, "generate_timeline"@, idempotency_key@),
{
    media_receipt_id(project_id, "generate_timeline", idempotency_key)
}

/// The stable receipt identifier of a scene plan generation.
pub fn stable_scene_plan_receipt_id(project_id: &str, idempotency_key: &str) -> (id: String)
    ensures
        id@ == receipt_id_for(project_id@, "generate_scene_plan"@, idempotency_key@),
{
    media_receipt_id(project_id, "generate_scene_plan", idempotency_key)
}

/// The stable receipt identifier of a scene plan save.
pub fn stable_scene_plan_save_receipt_id(project_id: &str, idempotency_key: &str) -> (id: String)
    ensures
        id@ == receipt_id_for(project_id@, "save_scene_plan"@, idempotency_key@),
{
    media_receipt_id(project_id, "save_scene_plan", idempotency_key)
}

/// The stable receipt identifier of a timeline save.
pub fn stable_timeline_save_receipt_id(project_id: &str, idempotency_key: &str) -> (id: String)
    ensures
        id@ == receipt_id_for(project_id@, "save_timeline"@, idempotency_key@),
{
    media_receipt_id(project_id, "save_timeline", idempotency_key)
}

/// The idempotency key of the storage job behind a media save: `media_save_`
/// and the lowercase hexadecimal SHA-256 of a versioned tag, the stage and the
/// caller's key.
pub open spec fn media_save_job_key_spec(stage_id: Seq<char>, key: Seq<char>) -> Seq<char> {
    "media_save_"@ + hex_lower(
        sha256_spec(encode_utf8("narracut:media-save-job:v1\0"@ + stage_id + "\0"@ + key)),
    )
}

/// Computes [`media_save_job_key_spec`].
pub fn media_save_job_idempotency_key(stage_id: &str, idempotency_key: &str) -> (key: String)
    ensures
        key@ == media_save_job_key_spec(stage_id@, idempotency_key@),
{
    let mut preimage = String::from_str("narracut:media-save-job:v1\0");
    preimage.append(stage_id);
    preimage.append("\0");
    preimage.append(idempotency_key);
    let digest = sha256_digest(preimage.as_str().as_bytes());
    let hex = lowercase_hex(&digest);
    let mut key = String::from_str("media_save_");
    key.append(hex.as_str());
    key
}

/// The eight little-endian bytes of `value`.
pub open spec fn le_bytes(value: u64) -> Seq<u8> {
    seq![
        (value % 0x100) as u8,
        ((value / 0x100) % 0x100) as u8,
        ((value / 0x1_0000) % 0x100) as u8,
        ((value / 0x100_0000) % 0x100) as u8,
        ((value / 0x1_0000_0000) % 0x100) as u8,
        ((value / 0x100_0000_0000) % 0x100) as u8,
        ((value / 0x1_0000_0000_0000) % 0x100) as u8,
        ((value / 0x100_0000_0000_0000) % 0x100) as u8,
    ]
}

/// The bytes hashed for a caption mapping: a versioned tag, the cue, the
/// level, the little-endian index and the mapped text.
pub open spec fn mapping_preimage(cue_id: Seq<char>, level: Seq<char>, index: u64, text: Seq<char>) -> Seq<
    u8,
> {
    encode_utf8("narracut:caption-mapping:v1\0"@ + cue_id + "\0"@ + level) + le_bytes(index)
        + encode_utf8(text)
}

/// The stable identifier of a caption mapping: `map_` and the lowercase
/// hexadecimal SHA-256 of [`mapping_preimage`].
pub fn stable_mapping_id(cue_id: &str, level: &str, index: usize, text: &str) -> (id: String)
    ensures
        id@ == "map_"@ + hex_lower(sha256_spec(mapping_preimage(cue_id@, level@, index as u64, text@))),
{
    let mut head = String::from_str("narracut:caption-mapping:v1\0");
    head.append(cue_id);
    head.append("\0");
    head.append(level);
    let mut preimage: Vec<u8> = Vec::new();
    preimage.extend_from_slice(head.as_str().as_bytes());
    let value = index as u64;
    preimage.push((value % 0x100) as u8);
    preimage.push(((value / 0x100) % 0x100) as u8);
    preimage.push(((value / 0x1_0000) % 0x100) as u8);
    preimage.push(((value / 0x100_0000) % 0x100) as u8);
    preimage.push(((value / 0x1_0000_0000) % 0x100) as u8);
    preimage.push(((value / 0x100_0000_0000) % 0x100) as u8);
    preimage.push(((value / 0x1_0000_0000_0000) % 0x100) as u8);
    preimage.push(((value / 0x100_0000_0000_0000) % 0x100) as u8);
    preimage.extend_from_slice(text.as_bytes());
    assert(preimage@ =~= mapping_preimage(cue_id@, level@, value, text@));
    let digest = sha256_digest(preimage.as_slice());
    let hex = lowercase_hex(&digest);
    let mut id = String::from_str("map_");
    id.append(hex.as_str());
    id
}

} // verus!
