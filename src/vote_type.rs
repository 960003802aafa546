use vstd::prelude::*;

verus! {

/// A voter's choice on the proposal.
#[derive(Debug, Clone, Copy, PartialEq, Eq, Structural, PartialOrd, Ord, Hash)]
pub enum Vote {
    Accept,
    Reject,
}

impl Vote {
    /// The single byte that stands for the vote in every encoding: 0 for
    /// `Accept`, 1 for `Reject`.
    pub open spec fn tag(self) -> u8 {
        match self {
            Vote::Accept => 0,
            Vote::Reject => 1,
        }
    }

    /// The vote a tag byte stands for, if any.
    pub open spec fn from_tag(b: u8) -> Option<Vote> {
        if b == 0 {
            Some(Vote::Accept)
        } else if b == 1 {
            Some(Vote::Reject)
        } else {
            None
        }
    }

    /// The tag byte of this vote.
    pub fn to_tag(&self) -> (r: u8)
        ensures
            r == self.tag(),
    {
        match self {
            Vote::Accept => 0,
            Vote::Reject => 1,
        }
    }

    /// Reads a tag byte back into a vote; `None` for any byte but 0 and 1.
    pub fn parse_tag(b: u8) -> (r: Option<Vote>)
        ensures
            r == Vote::from_tag(b),
    {
        if b == 0 {
            Some(Vote::Accept)
        } else if b == 1 {
            Some(Vote::Reject)
        } else {
            None
        }
    }
}

impl Default for Vote {
    /// A vote that was never set counts as a rejection.
    fn default() -> (r: Vote)
        ensures
            r == Vote::Reject,
    {
        Vote::Reject
    }
}

} // verus!
