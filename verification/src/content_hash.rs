use vstd::prelude::*;

use sha2::{Digest, Sha256};

use crate::digest::sha256_spec;
use crate::hex::{format_sha256, hex_lower};
use crate::storage_error::{opt_view, StorageErrorCode, StorageOperation, StorageServiceError};
use crate::storage_requests::{check_read_content, verification_status, verification_status_spec};
use crate::storage_types::{
    ArtifactVerificationResultData, ArtifactVerificationStatusData, STORAGE_COMMAND_API_VERSION,
};

verus! {

/// A running `sha2::Sha256` hasher, held privately; what it has absorbed is
/// named by [`sha256_absorbed`].
#[verifier::external_body]
pub struct Sha256State {
    hasher: Sha256,
}

/// The bytes a running SHA-256 hasher has absorbed, in order.
pub uninterp spec fn sha256_absorbed(state: Sha256State) -> Seq<u8>;

/// `<sha2::Sha256 as Digest>::new`: a hasher that has absorbed nothing.
#[verifier::external_body]
fn sha256_start() -> (state: Sha256State)
    ensures
        sha256_absorbed(state) == Seq::<u8>::empty(),
{
    Sha256State { hasher: Sha256::new() }
}

/// `<sha2::Sha256 as Digest>::update`: the hasher absorbs `chunk` after what
/// it held.
#[verifier::external_body]
fn sha256_update(state: &mut Sha256State, chunk: &[u8])
    ensures
        sha256_absorbed(*final(state)) == sha256_absorbed(*old(state)) + chunk@,
{
    state.hasher.update(chunk);
}

/// `<sha2::Sha256 as Digest>::finalize`: the 32-byte digest of all the hasher
/// absorbed, the same function `Sha256::digest` computes on those bytes at
/// once (the crate's `digest` is `new`, `update`, `finalize`).
#[verifier::external_body]
fn sha256_finalize(state: Sha256State) -> (digest: Vec<u8>)
    ensures
        digest@ == sha256_spec(sha256_absorbed(state)),
        digest@.len() == 32,
{
    state.hasher.finalize().to_vec()
}

/// Hashes content that arrives in chunks, such as a file being read.
pub struct ContentHasher {
    state: Sha256State,
}

impl ContentHasher {
    /// The bytes absorbed so far.
    pub closed spec fn absorbed(&self) -> Seq<u8> {
        sha256_absorbed(self.state)
    }

    /// A hasher that has absorbed nothing.
    pub fn new() -> (hasher: Self)
        ensures
            hasher.absorbed() == Seq::<u8>::empty(),
    {
        ContentHasher { state: sha256_start() }
    }

    /// Absorbs the next chunk.
    pub fn absorb(&mut self, chunk: &[u8])
        ensures
            final(self).absorbed() == old(self).absorbed() + chunk@,
    {
        sha256_update(&mut self.state, chunk);
    }

    /// The content hash of everything absorbed: `sha256:` and the lowercase
    /// hexadecimal digest, the same text as hashing the bytes at once.
    pub fn finish(self) -> (text: String)
        ensures
            text@ == "sha256:"@ + hex_lower(sha256_spec(self.absorbed())),
    {
        let digest = sha256_finalize(self.state);
        format_sha256(&digest)
    }
}

/// The content hash of `content`.
pub open spec fn content_hash_of(content: Seq<u8>) -> Seq<char> {
    "sha256:"@ + hex_lower(sha256_spec(content))
}

/// The content hash of `content`, computed by streaming it through a hasher.
pub fn hash_content(content: &[u8]) -> (hash: String)
    ensures
        hash@ == content_hash_of(content@),
{
    let mut hasher = ContentHasher::new();
    hasher.absorb(content);
    assert(Seq::<u8>::empty() + content@ =~= content@);
    hasher.finish()
}

/// Checks content read back from storage against the hash and byte length
/// its immutable metadata records (see [`check_read_content`]).
pub fn check_artifact_content(
    content: &[u8],
    expected_hash: &str,
    expected_length: u64,
    artifact_id: &str,
    content_path: &str,
) -> (result: Result<(), StorageServiceError>)
    ensures
        result is Ok <==> content_hash_of(content@) == expected_hash@ && content@.len()
            == expected_length,
        result matches Err(error) ==> {
            &&& error.code == StorageErrorCode::ContentCorrupt
            &&& error.operation == StorageOperation::GetArtifact
            &&& error.message@ == "Artifact 内容哈希或字节数与不可变元数据不一致。"@
            &&& opt_view(error.path) == Some(content_path@)
            &&& opt_view(error.artifact_id) == Some(artifact_id@)
        },
{
    let actual = hash_content(content);
    check_read_content(
        true,
        expected_hash,
        expected_length,
        actual.as_str(),
        content.len() as u64,
        artifact_id,
        content_path,
    )
}

/// The verification report of an artifact: its content is missing
/// (`actual` is `None`), or `actual` is the hash and length found; the
/// verdict is [`verification_status`]'s.
pub fn artifact_verification_result(
    owner_project_id: &str,
    artifact_id: &str,
    expected_hash: &str,
    expected_length: u64,
    actual: Option<(String, u64)>,
) -> (report: ArtifactVerificationResultData)
    ensures
        report.api_version@ == STORAGE_COMMAND_API_VERSION@,
        report.owner_project_id@ == owner_project_id@,
        report.artifact_id@ == artifact_id@,
        report.expected_content_hash@ == expected_hash@,
        report.expected_byte_length == expected_length,
        report.status == verification_status_spec(
            match actual {
                Some((hash, length)) => Some((hash@, length)),
                None => None,
            },
            expected_hash@,
            expected_length,
        ),
        match actual {
            None => report.actual_content_hash is None && report.actual_byte_length is None,
            Some((hash, length)) => opt_view(report.actual_content_hash) == Some(hash@)
                && report.actual_byte_length == Some(length),
        },
{
    let (status, actual_content_hash, actual_byte_length) = match actual {
        None => (verification_status(expected_hash, expected_length, None), None, None),
        Some((hash, length)) => {
            let status = verification_status(
                expected_hash,
                expected_length,
                Some((hash.as_str(), length)),
            );
            (status, Some(hash), Some(length))
        },
    };
    ArtifactVerificationResultData {
        api_version: STORAGE_COMMAND_API_VERSION.to_owned(),
        owner_project_id: owner_project_id.to_owned(),
        artifact_id: artifact_id.to_owned(),
        status,
        expected_content_hash: expected_hash.to_owned(),
        actual_content_hash,
        expected_byte_length: expected_length,
        actual_byte_length,
    }
}

/// The verdict on `content` against the recorded hash and byte length.
pub fn verify_artifact_content(content: &[u8], expected_hash: &str, expected_length: u64) -> (status:
    ArtifactVerificationStatusData)
    ensures
        status == verification_status_spec(
            Some((content_hash_of(content@), content@.len() as u64)),
            expected_hash@,
            expected_length,
        ),
{
    let actual = hash_content(content);
    verification_status(expected_hash, expected_length, Some((actual.as_str(), content.len() as u64)))
}

} // verus!
