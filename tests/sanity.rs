use ed25519_dalek::{Keypair, PublicKey, SecretKey, Signer};
use vote_machine::{ThresholdStatus, Vote, VoteEntry, VoteMachine, VoteOutcome};

fn keypair(seed: u8) -> Keypair {
    let secret = SecretKey::from_bytes(&[seed; 32]).unwrap();
    let public: PublicKey = (&secret).into();
    Keypair { secret, public }
}

#[test]
fn threshold_tests() {
    let one_third = ThresholdStatus::Third;
    assert_eq!(1, one_third.calculate_threshold(2));

    let half = ThresholdStatus::Half;
    assert_eq!(1, half.calculate_threshold(2));

    let two_thirds = ThresholdStatus::TwoThirds;
    assert_eq!(2, two_thirds.calculate_threshold(2));

    let full = ThresholdStatus::All;
    assert_eq!(2, full.calculate_threshold(2));

    let one_third = ThresholdStatus::Third;
    assert_eq!(4, one_third.calculate_threshold(10));

    let half = ThresholdStatus::Half;
    assert_eq!(5, half.calculate_threshold(10));

    let two_thirds = ThresholdStatus::TwoThirds;
    assert_eq!(7, two_thirds.calculate_threshold(10));

    let full = ThresholdStatus::All;
    assert_eq!(10, full.calculate_threshold(10));
}

#[test]
fn proposal_rejected() {
    let proposal_content =
        b"A Party for Financial Inclusion of Billions of Users from the Developing World";
    let proposal_hash = blake3::hash(proposal_content);

    let keypair_holder: Vec<Keypair> = (1u8..=10).map(keypair).collect();

    let mut vote_machine = VoteMachine::new(*proposal_hash.as_bytes());
    vote_machine.add_threshold(ThresholdStatus::Third);
    keypair_holder.iter().for_each(|keypair| {
        vote_machine.add_record(keypair.public.to_bytes());
    });

    let mut vote_entry = VoteEntry::new(*proposal_hash.as_bytes());
    keypair_holder
        .iter()
        .enumerate()
        .for_each(|(index, keypair)| {
            if index < 4 {
                vote_entry.add_public_key(keypair.public.to_bytes());
                vote_entry.add_vote(Vote::Accept);
            } else {
                vote_entry.add_public_key(keypair.public.to_bytes());
                vote_entry.add_vote(Vote::Reject);
            }

            let vote_bytes = vote_entry.prepare_bytes();
            assert!(&vote_bytes.is_ok());
            let signature = keypair.sign(&vote_bytes.unwrap());
            vote_entry.add_signature(signature.to_bytes());

            let add_vote = vote_machine.add_vote(vote_entry);

            assert!(add_vote.is_ok());
        });

    let tally = vote_machine.tally();

    assert_eq!((4, 6), tally.compile());
    assert_eq!(VoteOutcome::Rejected, tally.outcome());
}
