use vstd::prelude::*;

use crate::entry::{signed_message, EntryModel};
use crate::errors::{VmError, VmResult};

verus! {

#[verifier::external_type_specification]
#[verifier::external_body]
pub struct ExSignatureError(ed25519_dalek::SignatureError);

/// Whether 32 bytes are the compressed form of a point on the ed25519 curve.
pub uninterp spec fn ed25519_key_decodes(public_key: Seq<u8>) -> bool;

/// Whether `signature` is a valid ed25519 signature of `message` under
/// `public_key`, with key and signature decoded from their bytes; false
/// where either does not decode.
pub uninterp spec fn ed25519_verifies(public_key: Seq<u8>, message: Seq<u8>, signature: Seq<u8>) -> bool;

/// Whether 64 bytes are accepted as an ed25519 signature encoding: the three
/// highest bits of the scalar half are clear.
pub open spec fn signature_decodes(signature: Seq<u8>) -> bool {
    signature[63] & 0xe0u8 == 0
}

/// Relies on ed25519_dalek::PublicKey::from_bytes, which for 32 bytes fails
/// exactly when they do not decompress to a curve point.
#[verifier::external_body]
fn decode_public_key(bytes: &[u8; 32]) -> (r: Result<(), ed25519_dalek::SignatureError>)
    ensures
        r is Ok == ed25519_key_decodes(bytes@),
{
    match ed25519_dalek::PublicKey::from_bytes(bytes) {
        Ok(_) => Ok(()),
        Err(e) => Err(e),
    }
}

/// Relies on ed25519::Signature::from_bytes (re-exported by ed25519_dalek),
/// which for 64 bytes fails exactly when one of the three highest bits of the
/// last byte is set.
#[verifier::external_body]
fn decode_signature(bytes: &[u8; 64]) -> (r: Result<(), ed25519_dalek::SignatureError>)
    ensures
        r is Ok == signature_decodes(bytes@),
{
    match ed25519_dalek::Signature::from_bytes(bytes) {
        Ok(_) => Ok(()),
        Err(e) => Err(e),
    }
}

/// Relies on ed25519_dalek's `Verifier::verify` for `PublicKey`, after
/// decoding key and signature with their `from_bytes`: the answer depends on
/// the bytes of key, message and signature alone.
#[verifier::external_body]
fn verify_ed25519(public_key: &[u8; 32], message: &[u8], signature: &[u8; 64]) -> (r: Result<
    (),
    ed25519_dalek::SignatureError,
>)
    ensures
        r is Ok == ed25519_verifies(public_key@, message@, signature@),
{
    let key = ed25519_dalek::PublicKey::from_bytes(public_key)?;
    let sig = ed25519_dalek::Signature::from_bytes(signature)?;
    ed25519_dalek::Verifier::verify(&key, message, &sig)
}

/// The result of checking an entry's signature, given whether its key
/// decodes, whether its signature decodes, and whether the signature verifies.
pub open spec fn verdict(key_decodes: bool, signature_decodes: bool, verifies: bool) -> VmResult<bool> {
    if !key_decodes {
        Err(VmError::InvalidBytesForPublicKey)
    } else if !signature_decodes {
        Err(VmError::InvalidBytesForSignature)
    } else if verifies {
        Ok(true)
    } else {
        Err(VmError::InvalidSignature)
    }
}

/// The result of checking the signature of entry `e`.
pub open spec fn signature_check(e: EntryModel) -> VmResult<bool> {
    verdict(
        ed25519_key_decodes(e.0),
        signature_decodes(e.2),
        ed25519_verifies(e.0, signed_message(e.1, e.3), e.2),
    )
}

/// The verdict on an entry from the ed25519 results: an undecodable key is
/// reported first, then an undecodable signature, then a failed check.
pub fn signature_verdict(key_decodes: bool, signature_decodes: bool, verifies: bool) -> (r: VmResult<bool>)
    ensures
        r == verdict(key_decodes, signature_decodes, verifies),
{
    if !key_decodes {
        Err(VmError::InvalidBytesForPublicKey)
    } else if !signature_decodes {
        Err(VmError::InvalidBytesForSignature)
    } else if verifies {
        Ok(true)
    } else {
        Err(VmError::InvalidSignature)
    }
}

/// Checks that `signature` signs `message` under `public_key`.
pub fn check_signature(public_key: &[u8; 32], message: &Vec<u8>, signature: &[u8; 64]) -> (r: VmResult<bool>)
    ensures
        r == verdict(
            ed25519_key_decodes(public_key@),
            signature_decodes(signature@),
            ed25519_verifies(public_key@, message@, signature@),
        ),
{
    let key_decodes = decode_public_key(public_key).is_ok();
    let sig_decodes = key_decodes && decode_signature(signature).is_ok();
    let verifies = sig_decodes && verify_ed25519(public_key, message.as_slice(), signature).is_ok();
    signature_verdict(key_decodes, sig_decodes, verifies)
}

} // verus!
