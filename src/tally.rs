use vstd::prelude::*;

use crate::codec::{le_bytes, le_value_at, lemma_le_round_trip, push_u64_le, read_u64_le};
use crate::errors::{VmError, VmResult};

verus! {

/// How a tally comes out, from the votes cast alone.
#[derive(Debug, Clone, Copy, PartialEq, Eq, Structural, PartialOrd, Ord, Hash)]
pub enum VoteOutcome {
    Accepted,
    Rejected,
    Equal,
}

/// The outcome of `accepted` votes for and `rejected` against.
pub open spec fn outcome_of(accepted: nat, rejected: nat) -> VoteOutcome {
    if accepted > rejected {
        VoteOutcome::Accepted
    } else if accepted == rejected {
        VoteOutcome::Equal
    } else {
        VoteOutcome::Rejected
    }
}

/// A count of accepting and rejecting votes.
#[derive(Debug, Clone, Copy, PartialEq, Eq, Structural, PartialOrd, Ord, Hash)]
pub struct VoteTally {
    accepted: usize,
    rejected: usize,
}

impl View for VoteTally {
    /// The accepting count, then the rejecting count.
    type V = (nat, nat);

    closed spec fn view(&self) -> (nat, nat) {
        (self.accepted as nat, self.rejected as nat)
    }
}

/// The encoding of a tally: each count as eight little-endian bytes,
/// the accepting count first.
pub open spec fn tally_bytes(counts: (nat, nat)) -> Seq<u8> {
    le_bytes(counts.0 as u64) + le_bytes(counts.1 as u64)
}

/// The counts that `b` encodes: exactly sixteen bytes, each count small
/// enough for a `usize`.
pub open spec fn decode_tally(b: Seq<u8>) -> Option<(nat, nat)> {
    if b.len() == 16 && le_value_at(b, 0) <= usize::MAX && le_value_at(b, 8) <= usize::MAX {
        Some((le_value_at(b, 0) as nat, le_value_at(b, 8) as nat))
    } else {
        None
    }
}

impl VoteTally {
    /// An empty tally.
    pub fn new() -> (r: VoteTally)
        ensures
            r@ == (0nat, 0nat),
    {
        VoteTally { accepted: 0, rejected: 0 }
    }

    /// Counts one more accepting vote.
    pub fn accept(&mut self) -> (r: &mut Self)
        requires
            old(self)@.0 < usize::MAX,
        ensures
            r@ == (old(self)@.0 + 1, old(self)@.1),
            *final(self) == *final(r),
    {
        self.accepted = self.accepted + 1;
        self
    }

    /// Counts one more rejecting vote.
    pub fn reject(&mut self) -> (r: &mut Self)
        requires
            old(self)@.1 < usize::MAX,
        ensures
            r@ == (old(self)@.0, old(self)@.1 + 1),
            *final(self) == *final(r),
    {
        self.rejected = self.rejected + 1;
        self
    }

    /// The accepting and rejecting counts, in that order.
    pub fn compile(&self) -> (r: (usize, usize))
        ensures
            r.0 as nat == self@.0,
            r.1 as nat == self@.1,
    {
        (self.accepted, self.rejected)
    }

    /// `Accepted` when more votes accept than reject, `Equal` when as many,
    /// else `Rejected`.
    pub fn outcome(&self) -> (r: VoteOutcome)
        ensures
            r == outcome_of(self@.0, self@.1),
    {
        if self.accepted > self.rejected {
            VoteOutcome::Accepted
        } else if self.accepted == self.rejected {
            VoteOutcome::Equal
        } else {
            VoteOutcome::Rejected
        }
    }

    /// The sixteen bytes that encode this tally.
    pub fn to_bytes(&self) -> (r: Vec<u8>)
        ensures
            r@ == tally_bytes(self@),
    {
        let mut out: Vec<u8> = Vec::new();
        push_u64_le(&mut out, self.accepted as u64);
        push_u64_le(&mut out, self.rejected as u64);
        assert(out@ =~= tally_bytes(self@));
        out
    }

    /// Reads a tally from its encoding; any other input is refused with
    /// `BorshError`.
    pub fn from_bytes(b: &[u8]) -> (r: VmResult<VoteTally>)
        ensures
            r matches Ok(t) ==> decode_tally(b@) == Some(t@),
            r matches Err(e) ==> decode_tally(b@) is None && e == VmError::BorshError,
    {
        if b.len() != 16 {
            return Err(VmError::BorshError);
        }
        let a: u64 = read_u64_le(b, 0);
        let j: u64 = read_u64_le(b, 8);
        if a > usize::MAX as u64 || j > usize::MAX as u64 {
            return Err(VmError::BorshError);
        }
        Ok(VoteTally { accepted: a as usize, rejected: j as usize })
    }

    /// Encoding a tally and reading it back gives the same tally.
    pub proof fn lemma_round_trip(t: VoteTally)
        ensures
            decode_tally(tally_bytes(t@)) == Some(t@),
            forall|u: VoteTally| u@ == t@ ==> u == t,
    {
        let b = tally_bytes(t@);
        let x = t.accepted as u64;
        let y = t.rejected as u64;
        lemma_le_round_trip(x);
        lemma_le_round_trip(y);
        assert(b.subrange(0, 8) =~= le_bytes(x));
        assert(b.subrange(8, 16) =~= le_bytes(y));
        assert(le_value_at(b, 0) == le_value_at(le_bytes(x), 0));
        assert(le_value_at(b, 8) == le_value_at(le_bytes(y), 0));
    }
}

} // verus!
