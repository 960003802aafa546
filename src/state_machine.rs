use vstd::prelude::*;

use crate::ballots::{cast_vote, count_votes, has_key, key_index, lemma_latest_vote_counts, unique_keys, Ballots};
use crate::codec::bytes_equal;
use crate::entry::{signed_message, EntryModel, VoteEntry};
use crate::errors::{VmError, VmResult};
use crate::signing::{
    check_signature, ed25519_key_decodes, ed25519_verifies, signature_check, signature_decodes,
};
use crate::tally::VoteTally;
use crate::threshold::ThresholdStatus;
use crate::vote_type::Vote;

verus! {

#[verifier::external_type_specification]
#[verifier::external_body]
pub struct ExTai64N(tai64::Tai64N);

/// Reads the system clock; nothing is known of the time it returns.
pub assume_specification[ tai64::Tai64N::now ]() -> tai64::Tai64N;

/// What a vote entry meets on its way into a machine bound to `proposal`
/// with registered keys `records`: the proposal hash must match, then the
/// key must be registered, then the signature must hold.
pub open spec fn vote_check(proposal: Seq<u8>, records: Seq<Seq<u8>>, e: EntryModel) -> VmResult<bool> {
    if e.1 != proposal {
        Err(VmError::ProposalHashMismatch)
    } else if !records.contains(e.0) {
        Err(VmError::PublicKeyNotFoundInRecords)
    } else {
        signature_check(e)
    }
}

/// Registration, validation and counting of the votes on one proposal.
///
/// The timestamp taken at construction is kept as `expiry` but never
/// consulted: a machine accepts votes for as long as it lives.
pub struct VoteMachine {
    proposal: [u8; 32],
    votes: Vec<([u8; 32], Vote)>,
    records: Vec<[u8; 32]>,
    threshold: ThresholdStatus,
    #[allow(dead_code)]
    expiry: tai64::Tai64N,
}

impl VoteMachine {
    /// The proposal hash the machine is bound to.
    pub closed spec fn proposal_hash(&self) -> Seq<u8> {
        self.proposal@
    }

    /// The ballots counted so far.
    pub closed spec fn ballots(&self) -> Ballots {
        self.votes@.map_values(|p: ([u8; 32], Vote)| (p.0@, p.1))
    }

    /// The registered keys, in order of registration, repeats included.
    pub closed spec fn registered(&self) -> Seq<Seq<u8>> {
        self.records@.map_values(|k: [u8; 32]| k@)
    }

    /// The quorum policy.
    pub closed spec fn threshold_policy(&self) -> ThresholdStatus {
        self.threshold
    }

    /// Each key holds at most one ballot.
    pub closed spec fn wf(&self) -> bool {
        unique_keys(self.ballots())
    }

    /// A machine on `proposal` with no voters, no votes and threshold `All`.
    pub fn new(proposal: [u8; 32]) -> (r: VoteMachine)
        ensures
            r.wf(),
            r.proposal_hash() == proposal@,
            r.ballots() == Seq::<(Seq<u8>, Vote)>::empty(),
            r.registered() == Seq::<Seq<u8>>::empty(),
            r.threshold_policy() == ThresholdStatus::All,
    {
        let r = VoteMachine {
            proposal,
            votes: Vec::new(),
            records: Vec::new(),
            threshold: ThresholdStatus::All,
            expiry: tai64::Tai64N::now(),
        };
        assert(r.ballots() =~= Seq::<(Seq<u8>, Vote)>::empty());
        assert(r.registered() =~= Seq::<Seq<u8>>::empty());
        r
    }

    /// Registers `public_key` as a voter; a key may be registered twice.
    pub fn add_record(&mut self, public_key: [u8; 32]) -> (r: &mut Self)
        ensures
            r.registered() == old(self).registered().push(public_key@),
            r.proposal_hash() == old(self).proposal_hash(),
            r.ballots() == old(self).ballots(),
            r.threshold_policy() == old(self).threshold_policy(),
            r.wf() == old(self).wf(),
            *final(self) == *final(r),
    {
        self.records.push(public_key);
        assert(self.registered() =~= old(self).registered().push(public_key@));
        self
    }

    /// Replaces the quorum policy.
    pub fn add_threshold(&mut self, threshold: ThresholdStatus) -> (r: &mut Self)
        ensures
            r.threshold_policy() == threshold,
            r.proposal_hash() == old(self).proposal_hash(),
            r.ballots() == old(self).ballots(),
            r.registered() == old(self).registered(),
            r.wf() == old(self).wf(),
            *final(self) == *final(r),
    {
        self.threshold = threshold;
        self
    }

    /// Checks that `value` is the proposal hash the machine is bound to, and
    /// hands it back.
    pub fn proposal_hashes_match(&self, value: [u8; 32]) -> (r: VmResult<[u8; 32]>)
        ensures
            r matches Ok(h) ==> h@ == value@ && value@ == self.proposal_hash(),
            r matches Err(e) ==> e == VmError::ProposalHashMismatch && value@
                != self.proposal_hash(),
    {
        if bytes_equal(&self.proposal, &value) {
            Ok(value)
        } else {
            Err(VmError::ProposalHashMismatch)
        }
    }

    /// Checks that `public_key` is registered.
    pub fn record_exists(&self, public_key: [u8; 32]) -> (r: VmResult<bool>)
        ensures
            r == (if self.registered().contains(public_key@) {
                Ok(true)
            } else {
                Err(VmError::PublicKeyNotFoundInRecords)
            }),
    {
        let mut i: usize = 0;
        while i < self.records.len()
            invariant
                i <= self.records@.len(),
                forall|j: int| 0 <= j < i ==> self.records@[j]@ != public_key@,
            decreases self.records@.len() - i,
        {
            if bytes_equal(&self.records[i], &public_key) {
                assert(self.registered()[i as int] == public_key@);
                return Ok(true);
            }
            i = i + 1;
        }
        assert(!self.registered().contains(public_key@)) by {
            if self.registered().contains(public_key@) {
                let j = choose|j: int| 0 <= j < self.registered().len() && self.registered()[j] == public_key@;
                assert(self.records@[j]@ == public_key@);
            }
        }
        Err(VmError::PublicKeyNotFoundInRecords)
    }

    /// Checks the entry's signature over its signed message under its key.
    pub fn verify_hash(&self, entry: VoteEntry) -> (r: VmResult<bool>)
        ensures
            r == signature_check(entry@),
    {
        let message = match entry.prepare_bytes() {
            Ok(m) => m,
            Err(e) => {
                return Err(e);
            },
        };
        check_signature(&entry.public_key(), &message, &entry.signature())
    }

    /// Where `public_key` has voted, if it has.
    fn find_ballot(&self, public_key: &[u8; 32]) -> (r: Option<usize>)
        ensures
            r matches Some(i) ==> i < self.votes@.len() && self.ballots()[i as int].0 == public_key@,
            r is None ==> !has_key(self.ballots(), public_key@),
    {
        let mut i: usize = 0;
        while i < self.votes.len()
            invariant
                i <= self.votes@.len(),
                forall|j: int| 0 <= j < i ==> self.votes@[j].0@ != public_key@,
            decreases self.votes@.len() - i,
        {
            if bytes_equal(&self.votes[i].0, public_key) {
                return Some(i);
            }
            i = i + 1;
        }
        assert(!has_key(self.ballots(), public_key@)) by {
            if has_key(self.ballots(), public_key@) {
                let j = choose|j: int| 0 <= j < self.ballots().len() && self.ballots()[j].0 == public_key@;
                assert(self.votes@[j].0@ == public_key@);
            }
        }
        None
    }

    /// Validates `entry` and, if it passes, records its vote, replacing any
    /// earlier vote of the same key. A refused entry changes nothing.
    pub fn add_vote(&mut self, entry: VoteEntry) -> (r: VmResult<&mut Self>)
        requires
            old(self).wf(),
        ensures
            vote_check(old(self).proposal_hash(), old(self).registered(), entry@) is Ok ==> (
            r matches Ok(m) && m.wf() && m.ballots() == cast_vote(
                old(self).ballots(),
                entry@.0,
                entry@.3,
            ) && m.proposal_hash() == old(self).proposal_hash() && m.registered() == old(
                self,
            ).registered() && m.threshold_policy() == old(self).threshold_policy() && *final(self)
                == *final(m)),
            vote_check(old(self).proposal_hash(), old(self).registered(), entry@) matches Err(e)
                ==> (r matches Err(e2) && e2 == e && *final(self) == *old(self)),
            entry@.1 != old(self).proposal_hash() ==> (r matches Err(e)
                && e == VmError::ProposalHashMismatch && *final(self) == *old(self)),
            entry@.1 == old(self).proposal_hash() && !old(self).registered().contains(entry@.0)
                ==> (r matches Err(e) && e == VmError::PublicKeyNotFoundInRecords && *final(self)
                == *old(self)),
            entry@.1 == old(self).proposal_hash() && old(self).registered().contains(entry@.0)
                && ed25519_key_decodes(entry@.0) && signature_decodes(entry@.2)
                && !ed25519_verifies(entry@.0, signed_message(entry@.1, entry@.3), entry@.2) ==> (
            r matches Err(e) && e == VmError::InvalidSignature && *final(self) == *old(self)),
    {
        if let Err(e) = self.proposal_hashes_match(entry.proposal()) {
            return Err(e);
        }
        if let Err(e) = self.record_exists(entry.public_key()) {
            return Err(e);
        }
        if let Err(e) = self.verify_hash(entry) {
            return Err(e);
        }
        let key = entry.public_key();
        let vote = entry.vote();
        proof {
            lemma_latest_vote_counts(self.ballots(), key@, vote);
        }
        match self.find_ballot(&key) {
            Some(i) => {
                proof {
                    let s = self.ballots();
                    assert(key_index(s, key@) == i) by {
                        let j = key_index(s, key@);
                        if j != i {
                            if j < i {
                                assert(s[j].0 != s[i as int].0);
                            } else {
                                assert(s[i as int].0 != s[j].0);
                            }
                        }
                    }
                }
                self.votes.set(i, (key, vote));
            },
            None => {
                self.votes.push((key, vote));
            },
        }
        assert(self.ballots() =~= cast_vote(old(self).ballots(), key@, vote));
        Ok(self)
    }

    /// Counts the votes cast, ignoring the threshold and the number of
    /// registered keys.
    pub fn tally(&self) -> (r: VoteTally)
        ensures
            r@ == (count_votes(self.ballots(), Vote::Accept), count_votes(self.ballots(), Vote::Reject)),
            r@.0 + r@.1 == self.ballots().len(),
    {
        let mut tally = VoteTally::new();
        let mut i: usize = 0;
        while i < self.votes.len()
            invariant
                i <= self.votes@.len(),
                tally@ == (
                    count_votes(self.ballots().take(i as int), Vote::Accept),
                    count_votes(self.ballots().take(i as int), Vote::Reject),
                ),
                tally@.0 + tally@.1 == i,
            decreases self.votes@.len() - i,
        {
            let ghost before = self.ballots().take(i as int);
            assert(self.ballots().take(i + 1).drop_last() =~= before);
            if self.votes[i].1 == Vote::Accept {
                tally.accept();
            } else {
                tally.reject();
            }
            i = i + 1;
        }
        assert(self.ballots().take(i as int) =~= self.ballots());
        tally
    }
}

impl Default for VoteMachine {
    /// A machine on the all-zero proposal hash.
    fn default() -> (r: VoteMachine)
        ensures
            r.wf(),
            r.proposal_hash() == Seq::new(32, |i: int| 0u8),
            r.ballots() == Seq::<(Seq<u8>, Vote)>::empty(),
            r.registered() == Seq::<Seq<u8>>::empty(),
            r.threshold_policy() == ThresholdStatus::All,
    {
        let zero: [u8; 32] = [0u8; 32];
        assert(zero@ =~= Seq::new(32, |i: int| 0u8));
        VoteMachine::new(zero)
    }
}

} // verus!
