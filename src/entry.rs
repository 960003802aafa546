use vstd::prelude::*;

use crate::codec::{push_all, read_array};
use crate::errors::{VmError, VmResult};
use crate::vote_type::Vote;

verus! {

/// The message a voter signs: the proposal hash, then the vote's tag byte.
pub open spec fn signed_message(proposal: Seq<u8>, vote: Vote) -> Seq<u8> {
    proposal.push(vote.tag())
}

/// An entry as plain values: public key, proposal hash, signature, vote.
pub type EntryModel = (Seq<u8>, Seq<u8>, Seq<u8>, Vote);

/// The encoding of an entry: public key, proposal hash and signature as they
/// stand, then the vote's tag byte; 129 bytes in all.
pub open spec fn entry_bytes(e: EntryModel) -> Seq<u8> {
    e.0 + e.1 + e.2 + seq![e.3.tag()]
}

/// The entry that `b` encodes: exactly 129 bytes whose last one is a vote tag.
pub open spec fn decode_entry(b: Seq<u8>) -> Option<EntryModel> {
    if b.len() == 129 && Vote::from_tag(b[128]) is Some {
        Some(
            (
                b.subrange(0, 32),
                b.subrange(32, 64),
                b.subrange(64, 128),
                Vote::from_tag(b[128])->Some_0,
            ),
        )
    } else {
        None
    }
}

/// A voter's signed submission on one proposal.
#[derive(Clone, Copy)]
pub struct VoteEntry {
    public_key: [u8; 32],
    proposal: [u8; 32],
    signature: [u8; 64],
    vote: Vote,
}

impl View for VoteEntry {
    type V = EntryModel;

    closed spec fn view(&self) -> EntryModel {
        (self.public_key@, self.proposal@, self.signature@, self.vote)
    }
}

impl VoteEntry {
    /// An entry on `proposal_hash` with a zeroed key and signature and the
    /// default vote.
    pub fn new(proposal_hash: [u8; 32]) -> (r: VoteEntry)
        ensures
            r@ == (Seq::new(32, |i: int| 0u8), proposal_hash@, Seq::new(64, |i: int| 0u8), Vote::Reject),
    {
        let r = VoteEntry {
            public_key: [0u8; 32],
            proposal: proposal_hash,
            signature: [0u8; 64],
            vote: Vote::Reject,
        };
        assert(r.public_key@ =~= Seq::new(32, |i: int| 0u8));
        assert(r.signature@ =~= Seq::new(64, |i: int| 0u8));
        r
    }

    /// Sets the voter's public key.
    pub fn add_public_key(&mut self, public_key: [u8; 32]) -> (r: &mut Self)
        ensures
            r@ == (public_key@, old(self)@.1, old(self)@.2, old(self)@.3),
            *final(self) == *final(r),
    {
        self.public_key = public_key;
        self
    }

    /// Sets the vote.
    pub fn add_vote(&mut self, vote: Vote) -> (r: &mut Self)
        ensures
            r@ == (old(self)@.0, old(self)@.1, old(self)@.2, vote),
            *final(self) == *final(r),
    {
        self.vote = vote;
        self
    }

    /// Sets the signature.
    pub fn add_signature(&mut self, signature: [u8; 64]) -> (r: &mut Self)
        ensures
            r@ == (old(self)@.0, old(self)@.1, signature@, old(self)@.3),
            *final(self) == *final(r),
    {
        self.signature = signature;
        self
    }

    /// The message to sign: the proposal hash, then the vote's tag byte.
    pub fn prepare_bytes(&self) -> (r: VmResult<Vec<u8>>)
        ensures
            r matches Ok(m) && m@ == signed_message(self@.1, self@.3),
    {
        let mut buffer: Vec<u8> = Vec::new();
        push_all(&mut buffer, self.proposal.as_slice());
        buffer.push(self.vote.to_tag());
        assert(buffer@ =~= signed_message(self@.1, self@.3));
        Ok(buffer)
    }

    /// The whole entry encoded: key, proposal hash, signature, vote tag.
    pub fn to_bytes(&self) -> (r: VmResult<Vec<u8>>)
        ensures
            r matches Ok(b) && b@ == entry_bytes(self@),
    {
        let mut buffer: Vec<u8> = Vec::new();
        push_all(&mut buffer, self.public_key.as_slice());
        push_all(&mut buffer, self.proposal.as_slice());
        push_all(&mut buffer, self.signature.as_slice());
        buffer.push(self.vote.to_tag());
        assert(buffer@ =~= entry_bytes(self@));
        Ok(buffer)
    }

    /// Reads an entry from its encoding; any other input is refused with
    /// `BorshError`.
    pub fn from_bytes(b: &[u8]) -> (r: VmResult<VoteEntry>)
        ensures
            r matches Ok(e) ==> decode_entry(b@) == Some(e@),
            r matches Err(err) ==> decode_entry(b@) is None && err == VmError::BorshError,
    {
        if b.len() != 129 {
            return Err(VmError::BorshError);
        }
        let vote = match Vote::parse_tag(b[128]) {
            Some(v) => v,
            None => {
                return Err(VmError::BorshError);
            },
        };
        let public_key: [u8; 32] = read_array(b, 0);
        let proposal: [u8; 32] = read_array(b, 32);
        let signature: [u8; 64] = read_array(b, 64);
        Ok(VoteEntry { public_key, proposal, signature, vote })
    }

    pub fn public_key(&self) -> (r: [u8; 32])
        ensures
            r@ == self@.0,
    {
        self.public_key
    }

    pub fn proposal(&self) -> (r: [u8; 32])
        ensures
            r@ == self@.1,
    {
        self.proposal
    }

    pub fn signature(&self) -> (r: [u8; 64])
        ensures
            r@ == self@.2,
    {
        self.signature
    }

    pub fn vote(&self) -> (r: Vote)
        ensures
            r == self@.3,
    {
        self.vote
    }

    /// Encoding an entry and reading it back gives the same entry.
    pub proof fn lemma_round_trip(e: VoteEntry)
        ensures
            decode_entry(entry_bytes(e@)) == Some(e@),
            forall|u: VoteEntry| u@ == e@ ==> u == e,
    {
        let b = entry_bytes(e@);
        assert(b.subrange(0, 32) =~= e@.0);
        assert(b.subrange(32, 64) =~= e@.1);
        assert(b.subrange(64, 128) =~= e@.2);
        assert(b[128] == e.vote.tag());
        assert forall|u: VoteEntry| u@ == e@ implies u == e by {
            assert(u.public_key =~= e.public_key);
            assert(u.proposal =~= e.proposal);
            assert(u.signature =~= e.signature);
        }
    }
}

} // verus!
