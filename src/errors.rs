use vstd::prelude::*;

verus! {

/// Why a vote entry, or bytes that should hold one, were refused.
#[derive(Debug, Clone, Copy, PartialEq, Eq, Structural, PartialOrd, Ord, Hash)]
pub enum VmError {
    /// The entry's proposal hash is not the one the machine votes on.
    ProposalHashMismatch,
    /// Bytes that should hold an encoded value do not.
    BorshError,
    /// The public key bytes are not a valid ed25519 point encoding.
    InvalidBytesForPublicKey,
    /// The signature bytes are not a valid ed25519 signature encoding.
    InvalidBytesForSignature,
    /// The signature does not verify over the entry's signed message.
    InvalidSignature,
    /// The public key is not registered to vote on this proposal.
    PublicKeyNotFoundInRecords,
}

pub type VmResult<T> = Result<T, VmError>;

} // verus!
