use vstd::prelude::*;

verus! {

/// Why a persisted session snapshot could not be turned into a usable
/// generation session.
#[derive(Clone, Copy, PartialEq, Eq, Structural, Debug)]
pub enum RestoreError {
    /// The file's contents were not a well-formed compressed stream.
    Decompress,
    /// The decompressed payload did not decode into a session snapshot.
    Decode,
    /// The decoded snapshot does not fit the currently loaded model.
    Incompatible,
}

/// What decompressing a byte string yields: the decompressed payload, or
/// nothing when the bytes are not a well-formed compressed stream. This is
/// a function of the bytes alone.
pub uninterp spec fn zstd_inflate(data: Seq<u8>) -> Option<Seq<u8>>;

/// Whether a byte string decodes into a session snapshot. This is a
/// function of the bytes alone.
pub uninterp spec fn snapshot_decodes(data: Seq<u8>) -> bool;

/// A byte string is a valid snapshot file when it decompresses and its
/// payload decodes into a session snapshot.
pub open spec fn valid_snapshot_bytes(raw: Seq<u8>) -> bool {
    match zstd_inflate(raw) {
        Some(payload) => snapshot_decodes(payload),
        None => false,
    }
}

/// Declares `std::io::Error`, which the decompressor reports failures with.
#[verifier::external_type_specification]
#[verifier::external_body]
pub struct ExIoError(std::io::Error);

/// Declares `bincode::ErrorKind`, which the snapshot decoder reports
/// failures with.
#[verifier::external_type_specification]
#[verifier::external_body]
pub struct ExBincodeErrorKind(bincode::ErrorKind);

/// Declares `llm::InferenceSnapshot`, the decoded form of a persisted
/// generation session; opaque here, only carried through to the engine.
#[verifier::external_type_specification]
#[verifier::external_body]
pub struct ExInferenceSnapshot(llm::InferenceSnapshot);

/// Relies on `zstd::stream::decode_all`: decompression is a function of the
/// input bytes alone; it yields the decompressed payload, or an error
/// exactly when the input is not a well-formed compressed stream.
#[verifier::external_body]
fn zstd_decode_all(data: &[u8]) -> (r: Result<Vec<u8>, std::io::Error>)
    ensures
        match r {
            Ok(payload) => zstd_inflate(data@) == Some(payload@),
            Err(_) => zstd_inflate(data@) is None,
        },
{
    zstd::stream::decode_all(data)
}

/// Relies on `bincode::deserialize`: whether a byte string decodes into a
/// session snapshot is a function of the bytes alone.
#[verifier::external_body]
fn bincode_decode_snapshot(data: &[u8]) -> (r: Result<llm::InferenceSnapshot, Box<bincode::ErrorKind>>)
    ensures
        r.is_ok() == snapshot_decodes(data@),
{
    bincode::deserialize::<llm::InferenceSnapshot>(data)
}

/// Decompress a snapshot file's raw contents and check that the payload
/// decodes into a session snapshot; the decompressed payload is returned so
/// later generations can decode their own starting state from it. Succeeds
/// exactly on valid snapshot files, and names the stage that failed
/// otherwise.
pub fn load_snapshot(raw: &[u8]) -> (r: Result<Vec<u8>, RestoreError>)
    ensures
        r.is_ok() == valid_snapshot_bytes(raw@),
        match r {
            Ok(payload) => zstd_inflate(raw@) == Some(payload@) && snapshot_decodes(payload@),
            Err(e) => e == (if zstd_inflate(raw@) is None {
                RestoreError::Decompress
            } else {
                RestoreError::Decode
            }),
        },
{
    match zstd_decode_all(raw) {
        Ok(payload) => {
            match bincode_decode_snapshot(payload.as_slice()) {
                Ok(_) => Ok(payload),
                Err(_) => Err(RestoreError::Decode),
            }
        }
        Err(_) => Err(RestoreError::Decompress),
    }
}

/// Decode one generation's starting snapshot from an already decompressed
/// payload. Succeeds exactly when the payload decodes.
pub fn decode_snapshot(payload: &[u8]) -> (r: Result<llm::InferenceSnapshot, RestoreError>)
    ensures
        r.is_ok() == snapshot_decodes(payload@),
        r matches Err(e) ==> e == RestoreError::Decode,
{
    match bincode_decode_snapshot(payload) {
        Ok(snapshot) => Ok(snapshot),
        Err(_) => Err(RestoreError::Decode),
    }
}

} // verus!
