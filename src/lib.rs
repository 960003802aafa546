//! A governance voting engine: registered voters cast signed accept/reject
//! votes on one proposal, and the machine validates and tallies them.

mod codec;
pub use codec::{le_bytes, le_value, le_value_at};

mod vote_type;
pub use vote_type::Vote;

mod errors;
pub use errors::{VmError, VmResult};

mod threshold;
pub use threshold::{ceil_div, required_votes, ThresholdStatus};

mod tally;
pub use tally::{decode_tally, outcome_of, tally_bytes, VoteOutcome, VoteTally};

mod entry;
pub use entry::{decode_entry, entry_bytes, signed_message, EntryModel, VoteEntry};

mod signing;
pub use signing::{
    check_signature, ed25519_key_decodes, ed25519_verifies, signature_check, signature_decodes,
    signature_verdict, verdict,
};

mod ballots;
pub use ballots::{
    cast_vote, count_votes, has_key, key_index, lemma_latest_vote_counts,
    one_if, unique_keys, vote_of, Ballots,
};

mod state_machine;
pub use state_machine::{vote_check, VoteMachine};
