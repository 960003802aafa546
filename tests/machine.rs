use ed25519_dalek::{Keypair, PublicKey, SecretKey, Signer};
use vote_machine::{
    check_signature, signature_verdict, ThresholdStatus, VmError, Vote, VoteEntry, VoteMachine,
    VoteOutcome, VoteTally,
};

fn keypair(seed: u8) -> Keypair {
    let secret = SecretKey::from_bytes(&[seed; 32]).unwrap();
    let public: PublicKey = (&secret).into();
    Keypair { secret, public }
}

fn proposal() -> [u8; 32] {
    *blake3::hash(b"fund the public library").as_bytes()
}

fn signed_entry(kp: &Keypair, hash: [u8; 32], vote: Vote) -> VoteEntry {
    let mut entry = VoteEntry::new(hash);
    entry.add_public_key(kp.public.to_bytes()).add_vote(vote);
    let message = entry.prepare_bytes().unwrap();
    entry.add_signature(kp.sign(&message).to_bytes());
    entry
}

fn machine_with(keys: &[&Keypair]) -> VoteMachine {
    let mut machine = VoteMachine::new(proposal());
    for kp in keys {
        machine.add_record(kp.public.to_bytes());
    }
    machine
}

#[test]
fn threshold_ceilings() {
    assert_eq!(1, ThresholdStatus::Third.calculate_threshold(1));
    assert_eq!(1, ThresholdStatus::Half.calculate_threshold(1));
    assert_eq!(1, ThresholdStatus::TwoThirds.calculate_threshold(1));
    assert_eq!(1, ThresholdStatus::All.calculate_threshold(1));
    assert_eq!(1, ThresholdStatus::Third.calculate_threshold(3));
    assert_eq!(2, ThresholdStatus::Half.calculate_threshold(3));
    assert_eq!(2, ThresholdStatus::TwoThirds.calculate_threshold(3));
    assert_eq!(3, ThresholdStatus::Third.calculate_threshold(7));
    assert_eq!(5, ThresholdStatus::TwoThirds.calculate_threshold(7));
    assert_eq!(0, ThresholdStatus::Third.calculate_threshold(0));
}

#[test]
fn threshold_largest_size() {
    let g = usize::MAX;
    assert_eq!(g, ThresholdStatus::All.calculate_threshold(g));
    assert_eq!(g / 3, ThresholdStatus::Third.calculate_threshold(g));
    assert_eq!(g / 3, ThresholdStatus::Third.calculate_threshold(g - 1));
    assert_eq!(g / 3 - 1, ThresholdStatus::Third.calculate_threshold(g - 3));
    assert_eq!(g / 2 + 1, ThresholdStatus::Half.calculate_threshold(g));
    assert_eq!(g - g / 3, ThresholdStatus::TwoThirds.calculate_threshold(g));
}

#[test]
fn mismatched_proposal_is_refused() {
    let kp = keypair(1);
    let mut machine = machine_with(&[&kp]);
    let entry = signed_entry(&kp, [7u8; 32], Vote::Accept);
    assert_eq!(Err(VmError::ProposalHashMismatch), machine.add_vote(entry).map(|_| ()));
    assert_eq!((0, 0), machine.tally().compile());
    assert_eq!(Err(VmError::ProposalHashMismatch), machine.proposal_hashes_match([7u8; 32]));
    assert_eq!(Ok(proposal()), machine.proposal_hashes_match(proposal()));
}

#[test]
fn unregistered_key_is_refused() {
    let registered = keypair(1);
    let stranger = keypair(2);
    let mut machine = machine_with(&[&registered]);
    let entry = signed_entry(&stranger, proposal(), Vote::Accept);
    assert_eq!(Err(VmError::PublicKeyNotFoundInRecords), machine.add_vote(entry).map(|_| ()));
    assert_eq!((0, 0), machine.tally().compile());
    assert_eq!(
        Err(VmError::PublicKeyNotFoundInRecords),
        machine.record_exists(stranger.public.to_bytes())
    );
    assert_eq!(Ok(true), machine.record_exists(registered.public.to_bytes()));
}

#[test]
fn tampered_message_is_refused() {
    let kp = keypair(3);
    let mut machine = machine_with(&[&kp]);
    let mut entry = signed_entry(&kp, proposal(), Vote::Accept);
    entry.add_vote(Vote::Reject);
    assert_eq!(Err(VmError::InvalidSignature), machine.verify_hash(entry));
    assert_eq!(Err(VmError::InvalidSignature), machine.add_vote(entry).map(|_| ()));
    assert_eq!((0, 0), machine.tally().compile());
}

#[test]
fn flipped_signature_bit_is_refused() {
    let kp = keypair(4);
    let mut machine = machine_with(&[&kp]);
    let mut entry = signed_entry(&kp, proposal(), Vote::Accept);
    let mut signature = entry.signature();
    signature[0] ^= 1;
    entry.add_signature(signature);
    assert_eq!(Err(VmError::InvalidSignature), machine.add_vote(entry).map(|_| ()));
    assert_eq!((0, 0), machine.tally().compile());
}

#[test]
fn malformed_signature_bytes_are_refused() {
    let kp = keypair(5);
    let mut machine = machine_with(&[&kp]);
    let mut entry = signed_entry(&kp, proposal(), Vote::Accept);
    let mut signature = entry.signature();
    signature[63] |= 0xe0;
    entry.add_signature(signature);
    assert_eq!(Err(VmError::InvalidBytesForSignature), machine.verify_hash(entry));
    assert_eq!(Err(VmError::InvalidBytesForSignature), machine.add_vote(entry).map(|_| ()));
    assert_eq!((0, 0), machine.tally().compile());
}

#[test]
fn malformed_public_key_bytes_are_refused() {
    let mut machine = VoteMachine::new(proposal());
    let mut undecodable = 0;
    for first in 2u8..60 {
        let mut key = [0u8; 32];
        key[0] = first;
        machine.add_record(key);
        let mut entry = VoteEntry::new(proposal());
        entry.add_public_key(key);
        match machine.add_vote(entry).map(|_| ()) {
            Err(VmError::InvalidBytesForPublicKey) => undecodable += 1,
            Err(VmError::InvalidSignature) => {}
            other => panic!("unexpected result {:?}", other),
        }
    }
    assert!(undecodable > 0);
    assert_eq!((0, 0), machine.tally().compile());
}

#[test]
fn accepted_vote_is_counted_and_latest_vote_wins() {
    let a = keypair(6);
    let b = keypair(7);
    let mut machine = machine_with(&[&a, &b]);
    assert!(machine.add_vote(signed_entry(&a, proposal(), Vote::Accept)).is_ok());
    assert_eq!((1, 0), machine.tally().compile());
    assert_eq!(VoteOutcome::Accepted, machine.tally().outcome());
    assert!(machine.add_vote(signed_entry(&b, proposal(), Vote::Accept)).is_ok());
    assert_eq!((2, 0), machine.tally().compile());
    assert!(machine.add_vote(signed_entry(&a, proposal(), Vote::Reject)).is_ok());
    assert_eq!((1, 1), machine.tally().compile());
    assert_eq!(VoteOutcome::Equal, machine.tally().outcome());
    assert!(machine.add_vote(signed_entry(&a, proposal(), Vote::Reject)).is_ok());
    assert_eq!((1, 1), machine.tally().compile());
}

#[test]
fn duplicate_registration_is_harmless() {
    let a = keypair(8);
    let mut machine = machine_with(&[&a, &a]);
    assert!(machine.add_vote(signed_entry(&a, proposal(), Vote::Reject)).is_ok());
    assert_eq!((0, 1), machine.tally().compile());
    assert_eq!(VoteOutcome::Rejected, machine.tally().outcome());
}

#[test]
fn default_machine_counts_nothing() {
    let machine = VoteMachine::default();
    assert_eq!((0, 0), machine.tally().compile());
    assert_eq!(Ok([0u8; 32]), machine.proposal_hashes_match([0u8; 32]));
}

#[test]
fn tally_outcomes() {
    let mut tally = VoteTally::new();
    assert_eq!((0, 0), tally.compile());
    assert_eq!(VoteOutcome::Equal, tally.outcome());
    tally.accept().accept().reject();
    assert_eq!((2, 1), tally.compile());
    assert_eq!(VoteOutcome::Accepted, tally.outcome());
    tally.reject().reject();
    assert_eq!((2, 3), tally.compile());
    assert_eq!(VoteOutcome::Rejected, tally.outcome());
}

#[test]
fn default_vote_is_reject() {
    assert_eq!(Vote::Reject, Vote::default());
    assert_eq!(Vote::Reject, VoteEntry::new([0u8; 32]).vote());
}

#[test]
fn verdict_order_of_failures() {
    assert_eq!(Err(VmError::InvalidBytesForPublicKey), signature_verdict(false, false, false));
    assert_eq!(Err(VmError::InvalidBytesForPublicKey), signature_verdict(false, true, true));
    assert_eq!(Err(VmError::InvalidBytesForSignature), signature_verdict(true, false, true));
    assert_eq!(Err(VmError::InvalidSignature), signature_verdict(true, true, false));
    assert_eq!(Ok(true), signature_verdict(true, true, true));
}

#[test]
fn direct_signature_check() {
    let kp = keypair(9);
    let message = b"some message".to_vec();
    let signature = kp.sign(&message).to_bytes();
    let key = kp.public.to_bytes();
    assert_eq!(Ok(true), check_signature(&key, &message, &signature));
    let other = b"other message".to_vec();
    assert_eq!(Err(VmError::InvalidSignature), check_signature(&key, &other, &signature));
    let stranger = keypair(10).public.to_bytes();
    assert_eq!(Err(VmError::InvalidSignature), check_signature(&stranger, &message, &signature));
}
