use vstd::prelude::*;
use crate::dao_contract::{
    ballot_recorded, execute_error, finalize_error, finalized, marked_executed, vote_error,
};
use crate::error::ErrorCode;
use crate::dao_contract::MAX_MEMBERS;
use crate::proposal::{is_winner, Proposal, MAX_APPROVERS};
use crate::pubkey::Pubkey;
use crate::registry::DaoInfo;

verus! {

/// A ballot from outside the registry is refused as unauthorized, whatever
/// the proposal's ballots and tallies are.
pub proof fn lemma_non_member_refused(dao: &DaoInfo, p: &Proposal, voter: Pubkey, idx: int)
    requires
        !dao.has_member(voter),
    ensures
        vote_error(dao, p, voter, idx) == Some(ErrorCode::Unauthorized),
{
}

/// Once a member's ballot is recorded, every further ballot of theirs is
/// refused as a repeat, for any option index.
pub proof fn lemma_single_ballot(
    dao: &DaoInfo,
    p: &Proposal,
    q: &Proposal,
    voter: Pubkey,
    idx: int,
    next_idx: int,
)
    requires
        vote_error(dao, p, voter, idx) is None,
        ballot_recorded(p, q, voter, idx),
    ensures
        vote_error(dao, q, voter, next_idx) == Some(ErrorCode::AlreadyVoted),
{
    assert(q.voters@[q.voters@.len() - 1] == voter);
}

/// A recorded ballot stays recorded when another ballot is added.
pub proof fn lemma_ballot_kept(p: &Proposal, q: &Proposal, earlier: Pubkey, voter: Pubkey, idx: int)
    requires
        p.has_voted(earlier),
        ballot_recorded(p, q, voter, idx),
    ensures
        q.has_voted(earlier),
{
    let k = choose|k: int| 0 <= k < p.voters@.len() && p.voters@[k] == earlier;
    assert(q.voters@[k] == earlier);
}

/// From a member who has not voted yet, a ballot for an index outside the
/// options is refused as an invalid option.
pub proof fn lemma_out_of_range_option(dao: &DaoInfo, p: &Proposal, voter: Pubkey, idx: int)
    requires
        dao.has_member(voter),
        !p.has_voted(voter),
        idx < 0 || idx >= p.options@.len(),
    ensures
        vote_error(dao, p, voter, idx) == Some(ErrorCode::InvalidOption),
{
}

/// Finalization is refused up to the end of the window; once it has
/// succeeded, every later attempt is refused, as already finalized once the
/// window is over.
pub proof fn lemma_finalize_once(p: &Proposal, q: &Proposal, now: i64, early: i64, later: i64)
    requires
        finalize_error(p, now) is None,
        finalized(p, q),
        early <= p.end_time,
        later > p.end_time,
    ensures
        finalize_error(p, early) == Some(ErrorCode::VotingStillActive),
        finalize_error(q, early) == Some(ErrorCode::VotingStillActive),
        finalize_error(q, later) == Some(ErrorCode::AlreadyFinalized),
{
}

/// The winning index of a list of tallies is determined by the tallies.
pub proof fn lemma_winner_unique(t: Seq<u64>, a: int, b: int)
    requires
        is_winner(t, a),
        is_winner(t, b),
    ensures
        a == b,
{
    if t.len() > 0 {
        if a < b {
            assert(t[a] < t[b]);
            assert(t[b] <= t[a]);
        } else if b < a {
            assert(t[b] < t[a]);
            assert(t[a] <= t[b]);
        }
    }
}

/// The execution gate refuses a proposal that is not finalized; once the
/// proposal is marked executed, every further attempt is refused as a repeat.
pub proof fn lemma_execute_once(p: &Proposal, q: &Proposal, n: int, next_n: int)
    requires
        execute_error(p, n) is None,
        marked_executed(p, q),
    ensures
        execute_error(q, next_n) == Some(ErrorCode::AlreadyExecuted),
{
}

/// A proposal without an outcome cannot pass the execution gate.
pub proof fn lemma_execute_needs_outcome(p: &Proposal, n: int)
    requires
        p.winner_index is None,
    ensures
        execute_error(p, n) == Some(ErrorCode::ProposalNotFinalized),
{
}

/// Finalizing a proposal leaves it unexecuted when it was, so that the
/// execution gate then lets it through.
pub proof fn lemma_finalized_can_execute(p: &Proposal, q: &Proposal, n: int)
    requires
        !p.executed,
        finalized(p, q),
        n >= crate::dao_contract::ACTION_ACCOUNTS,
    ensures
        execute_error(q, n) is None,
{
}

/// Ballots are cast by distinct members of a registry of at most
/// `MAX_MEMBERS`, so they never outgrow the space a record reserves for them;
/// a recorded ballot keeps the ballots distinct and cast by members.
pub proof fn lemma_ballots_within_capacity(
    dao: &DaoInfo,
    p: &Proposal,
    q: &Proposal,
    voter: Pubkey,
    idx: int,
)
    requires
        dao.members@.len() <= MAX_MEMBERS,
        p.voters@.no_duplicates(),
        forall|i: int| 0 <= i < p.voters@.len() ==> dao.has_member(#[trigger] p.voters@[i]),
        vote_error(dao, p, voter, idx) is None,
        ballot_recorded(p, q, voter, idx),
    ensures
        q.voters@.no_duplicates(),
        forall|i: int| 0 <= i < q.voters@.len() ==> dao.has_member(#[trigger] q.voters@[i]),
        q.voters@.len() <= MAX_MEMBERS <= MAX_APPROVERS,
{
    let v = q.voters@;
    assert forall|i: int, j: int| 0 <= i < v.len() && 0 <= j < v.len() && i != j implies #[trigger] v[i]
        != #[trigger] v[j] by {
        if i < p.voters@.len() && j < p.voters@.len() {
            assert(v[i] == p.voters@[i] && v[j] == p.voters@[j]);
        } else if i < p.voters@.len() {
            assert(v[i] == p.voters@[i]);
        } else {
            assert(v[j] == p.voters@[j]);
        }
    }
    assert forall|i: int| 0 <= i < v.len() implies dao.has_member(#[trigger] v[i]) by {
        if i < p.voters@.len() {
            assert(v[i] == p.voters@[i]);
        }
    }
    v.unique_seq_to_set();
    dao.members@.lemma_cardinality_of_set();
    assert(v.to_set().subset_of(dao.members@.to_set()));
    vstd::set_lib::lemma_len_subset(v.to_set(), dao.members@.to_set());
}

/// Once a proposal's outcome is fixed, later ballots keep it, and every later
/// finalization after the window is refused as already finalized.
pub proof fn lemma_outcome_survives_votes(
    states: Seq<Proposal>,
    voters: Seq<Pubkey>,
    indices: Seq<int>,
    now: i64,
)
    requires
        states.len() >= 1,
        voters.len() == states.len() - 1,
        indices.len() == states.len() - 1,
        states[0].winner_index is Some,
        forall|i: int|
            0 <= i < states.len() - 1 ==> ballot_recorded(
                &#[trigger] states[i],
                &states[i + 1],
                voters[i],
                indices[i],
            ),
        now > states[0].end_time,
    ensures
        states.last().winner_index == states[0].winner_index,
        states.last().end_time == states[0].end_time,
        finalize_error(&states.last(), now) == Some(ErrorCode::AlreadyFinalized),
    decreases states.len(),
{
    if states.len() > 1 {
        let n = states.len() - 1;
        let prefix = states.subrange(0, n);
        assert forall|i: int| #![trigger prefix[i]] 0 <= i < prefix.len() - 1 implies ballot_recorded(
            &prefix[i],
            &prefix[i + 1],
            voters.subrange(0, n - 1)[i],
            indices.subrange(0, n - 1)[i],
        ) by {
            assert(ballot_recorded(&states[i], &states[i + 1], voters[i], indices[i]));
        }
        lemma_outcome_survives_votes(prefix, voters.subrange(0, n - 1), indices.subrange(0, n - 1), now);
        assert(ballot_recorded(&states[n - 1], &states[n], voters[n - 1], indices[n - 1]));
    }
}

} // verus!
