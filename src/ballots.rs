use vstd::prelude::*;

use crate::vote_type::Vote;

verus! {

/// Votes cast so far, one (public key, vote) pair per voter.
pub type Ballots = Seq<(Seq<u8>, Vote)>;

/// No key holds two ballots.
pub open spec fn unique_keys(s: Ballots) -> bool {
    forall|i: int, j: int| 0 <= i < j < s.len() ==> s[i].0 != s[j].0
}

/// Whether `k` has cast a ballot.
pub open spec fn has_key(s: Ballots, k: Seq<u8>) -> bool {
    exists|i: int| 0 <= i < s.len() && s[i].0 == k
}

/// Where `k`'s ballot stands.
pub open spec fn key_index(s: Ballots, k: Seq<u8>) -> int {
    choose|i: int| 0 <= i < s.len() && s[i].0 == k
}

/// The vote that `k` has cast, if any.
pub open spec fn vote_of(s: Ballots, k: Seq<u8>) -> Option<Vote> {
    if has_key(s, k) {
        Some(s[key_index(s, k)].1)
    } else {
        None
    }
}

/// The ballots after `k` casts `v`: its earlier ballot is replaced, or a new
/// one is added.
pub open spec fn cast_vote(s: Ballots, k: Seq<u8>, v: Vote) -> Ballots {
    if has_key(s, k) {
        s.update(key_index(s, k), (k, v))
    } else {
        s.push((k, v))
    }
}

/// How many ballots hold `v`.
pub open spec fn count_votes(s: Ballots, v: Vote) -> nat
    decreases s.len(),
{
    if s.len() == 0 {
        0
    } else {
        count_votes(s.drop_last(), v) + if s.last().1 == v {
            1nat
        } else {
            0nat
        }
    }
}

/// One for a vote that is `v`, else zero.
pub open spec fn one_if(o: Option<Vote>, v: Vote) -> int {
    if o == Some(v) {
        1
    } else {
        0
    }
}

proof fn lemma_count_update(s: Ballots, i: int, p: (Seq<u8>, Vote), v: Vote)
    requires
        0 <= i < s.len(),
    ensures
        count_votes(s.update(i, p), v) == count_votes(s, v) - one_if(Some(s[i].1), v) + one_if(
            Some(p.1),
            v,
        ),
    decreases s.len(),
{
    let t = s.update(i, p);
    if i == s.len() - 1 {
        assert(t.drop_last() =~= s.drop_last());
    } else {
        lemma_count_update(s.drop_last(), i, p, v);
        assert(t.drop_last() =~= s.drop_last().update(i, p));
    }
}

proof fn lemma_index_of_unique(s: Ballots, k: Seq<u8>, i: int)
    requires
        unique_keys(s),
        0 <= i < s.len(),
        s[i].0 == k,
    ensures
        has_key(s, k),
        key_index(s, k) == i,
{
    assert(has_key(s, k));
    let j = key_index(s, k);
    assert(s[j].0 == k);
    if j < i {
        assert(s[j].0 != s[i].0);
    } else if i < j {
        assert(s[i].0 != s[j].0);
    }
}

/// Casting a vote keeps one ballot per key, makes `v` the vote of `k`,
/// leaves every other key's vote as it was, and in the counts replaces
/// `k`'s earlier vote, if any, by `v`: only the latest vote of a key counts.
pub proof fn lemma_latest_vote_counts(s: Ballots, k: Seq<u8>, v: Vote)
    requires
        unique_keys(s),
    ensures
        unique_keys(cast_vote(s, k, v)),
        vote_of(cast_vote(s, k, v), k) == Some(v),
        forall|k2: Seq<u8>| k2 != k ==> vote_of(cast_vote(s, k, v), k2) == vote_of(s, k2),
        forall|a: Vote|
            count_votes(cast_vote(s, k, v), a) == count_votes(s, a) - one_if(vote_of(s, k), a)
                + one_if(Some(v), a),
{
    let t = cast_vote(s, k, v);
    if has_key(s, k) {
        let i = key_index(s, k);
        assert(unique_keys(t));
        lemma_index_of_unique(t, k, i);
        assert forall|k2: Seq<u8>| k2 != k implies vote_of(t, k2) == vote_of(s, k2) by {
            if has_key(s, k2) {
                let j = key_index(s, k2);
                lemma_index_of_unique(t, k2, j);
            }
            if has_key(t, k2) {
                let j = key_index(t, k2);
                lemma_index_of_unique(s, k2, j);
            }
        }
        assert forall|a: Vote|
            count_votes(t, a) == count_votes(s, a) - one_if(vote_of(s, k), a) + one_if(
                Some(v),
                a,
            ) by {
            lemma_count_update(s, i, (k, v), a);
        }
    } else {
        assert(unique_keys(t));
        lemma_index_of_unique(t, k, s.len() as int);
        assert forall|k2: Seq<u8>| k2 != k implies vote_of(t, k2) == vote_of(s, k2) by {
            if has_key(s, k2) {
                let j = key_index(s, k2);
                lemma_index_of_unique(t, k2, j);
            }
            if has_key(t, k2) {
                let j = key_index(t, k2);
                lemma_index_of_unique(s, k2, j);
            }
        }
        assert forall|a: Vote|
            count_votes(t, a) == count_votes(s, a) - one_if(vote_of(s, k), a) + one_if(
                Some(v),
                a,
            ) by {
            assert(t.drop_last() =~= s);
        }
    }
}

} // verus!
