//! The store as contracts see it, and what the commands keep true of it.
//!
//! The library never holds a store. A host reads the rows of a command,
//! runs it, and writes what it returns: `Store::after` is the store that this
//! leaves, and the laws below are stated of it.

use crate::contract::{
    poll_created, fresh_options, previous_choice, vote_admitted, vote_counted, Effects,
    MAX_OPTIONS,
};
use crate::error::ContractError;
use crate::state::{BallotView, PollView};
use crate::tally::{lemma_vote_total, total_votes};
use vstd::prelude::*;

verus! {

/// The polls by their id, and the ballots by voter and poll id.
pub struct Store {
    pub polls: Map<Seq<char>, PollView>,
    pub ballots: Map<(Seq<char>, Seq<char>), BallotView>,
}

impl Store {
    /// The poll under `poll_id`, if there is one.
    pub open spec fn poll(self, poll_id: Seq<char>) -> Option<PollView> {
        if self.polls.contains_key(poll_id) {
            Some(self.polls[poll_id])
        } else {
            None
        }
    }

    /// The ballot of `voter` in the poll under `poll_id`, if there is one.
    pub open spec fn ballot(self, voter: Seq<char>, poll_id: Seq<char>) -> Option<BallotView> {
        if self.ballots.contains_key((voter, poll_id)) {
            Some(self.ballots[(voter, poll_id)])
        } else {
            None
        }
    }

    /// The store once the host has written what a command of `voter` on
    /// `poll_id` returned: its poll under the id and its ballot, if it has
    /// one, under voter and id. A command that failed leaves the store as
    /// it was.
    pub open spec fn after(
        self,
        voter: Seq<char>,
        poll_id: Seq<char>,
        result: Result<Effects, ContractError>,
    ) -> Store {
        match result {
            Ok(effects) => Store {
                polls: self.polls.insert(poll_id, effects.poll@),
                ballots: match effects.ballot {
                    Some(cast) => self.ballots.insert((voter, poll_id), cast@),
                    None => self.ballots,
                },
            },
            Err(_) => self,
        }
    }

    /// Those who hold a ballot in the poll under `poll_id`.
    pub open spec fn voters(self, poll_id: Seq<char>) -> Set<Seq<char>> {
        Set::new(|voter: Seq<char>| self.ballots.contains_key((voter, poll_id)))
    }

    /// The poll under `poll_id`, if there is one, counts as many votes as
    /// there are ballots in it.
    pub open spec fn tallies_match(self, poll_id: Seq<char>) -> bool {
        self.polls.contains_key(poll_id) ==> {
            &&& self.voters(poll_id).finite()
            &&& total_votes(self.polls[poll_id].options) == self.voters(poll_id).len()
        }
    }
}

/// A poll that is created with at most `MAX_OPTIONS` labels stands in the
/// store under its id afterwards, one option per label in their order and
/// each without votes. Every other poll and every ballot is as before.
pub proof fn lemma_created_poll_is_stored(
    store: Store,
    result: Result<Effects, ContractError>,
    sender: Seq<char>,
    poll_id: Seq<char>,
    question: Seq<char>,
    labels: Seq<Seq<char>>,
)
    requires
        poll_created(result, sender, question, labels),
        labels.len() <= MAX_OPTIONS,
    ensures
        store.after(sender, poll_id, result).poll(poll_id) == Some(
            PollView { admin: sender, question, options: fresh_options(labels) },
        ),
        forall|other: Seq<char>|
            other != poll_id ==> store.after(sender, poll_id, result).poll(other) == store.poll(
                other,
            ),
        store.after(sender, poll_id, result).ballots == store.ballots,
{
}

/// A poll that is created with more than `MAX_OPTIONS` labels is refused
/// and the store stays as it was.
pub proof fn lemma_refused_poll_is_not_stored(
    store: Store,
    result: Result<Effects, ContractError>,
    sender: Seq<char>,
    poll_id: Seq<char>,
    question: Seq<char>,
    labels: Seq<Seq<char>>,
)
    requires
        poll_created(result, sender, question, labels),
        labels.len() > MAX_OPTIONS,
    ensures
        result == Err::<Effects, ContractError>(ContractError::TooManyOptions),
        store.after(sender, poll_id, result) == store,
{
}

/// A vote on a poll id under which the store holds nothing is refused and
/// the store stays as it was.
pub proof fn lemma_vote_on_missing_poll(
    store: Store,
    result: Result<Effects, ContractError>,
    voter: Seq<char>,
    poll_id: Seq<char>,
    vote: Seq<char>,
)
    requires
        store.poll(poll_id) is None,
        vote_counted(result, store.poll(poll_id), store.ballot(voter, poll_id), vote),
    ensures
        result == Err::<Effects, ContractError>(ContractError::PollNotFound),
        store.after(voter, poll_id, result) == store,
{
}

/// A vote touches the poll it names and the ballot of its voter there, and
/// nothing else: afterwards the voter's ballot reads the vote, and every
/// other poll and every other ballot is as before.
pub proof fn lemma_vote_is_local(
    store: Store,
    result: Result<Effects, ContractError>,
    voter: Seq<char>,
    poll_id: Seq<char>,
    vote: Seq<char>,
)
    requires
        store.poll(poll_id) is Some,
        vote_counted(result, store.poll(poll_id), store.ballot(voter, poll_id), vote),
    ensures
        store.after(voter, poll_id, result).ballot(voter, poll_id) == Some(
            BallotView { option: vote },
        ),
        forall|other: Seq<char>|
            other != poll_id ==> store.after(voter, poll_id, result).poll(other) == store.poll(
                other,
            ),
        forall|who: Seq<char>, other: Seq<char>|
            (who, other) != (voter, poll_id) ==> store.after(voter, poll_id, result).ballot(
                who,
                other,
            ) == store.ballot(who, other),
{
}

/// Where a poll counts as many votes as it has ballots, it still does after
/// a vote on it that can be counted.
pub proof fn lemma_vote_keeps_tallies(
    store: Store,
    result: Result<Effects, ContractError>,
    voter: Seq<char>,
    poll_id: Seq<char>,
    vote: Seq<char>,
)
    requires
        store.poll(poll_id) is Some,
        store.tallies_match(poll_id),
        vote_admitted(store.poll(poll_id), store.ballot(voter, poll_id), vote),
        vote_counted(result, store.poll(poll_id), store.ballot(voter, poll_id), vote),
    ensures
        store.after(voter, poll_id, result).tallies_match(poll_id),
{
    let before = store.polls[poll_id];
    let ballot = store.ballot(voter, poll_id);
    let next = store.after(voter, poll_id, result);
    lemma_vote_total(before.options, previous_choice(ballot), vote);
    if ballot is None {
        assert(next.voters(poll_id) =~= store.voters(poll_id).insert(voter));
    } else {
        assert(next.voters(poll_id) =~= store.voters(poll_id));
    }
}

/// A poll that is created under an id under which nobody holds a ballot
/// counts as many votes as it has ballots: none.
pub proof fn lemma_created_poll_tallies(
    store: Store,
    result: Result<Effects, ContractError>,
    sender: Seq<char>,
    poll_id: Seq<char>,
    question: Seq<char>,
    labels: Seq<Seq<char>>,
)
    requires
        poll_created(result, sender, question, labels),
        labels.len() <= MAX_OPTIONS,
        store.voters(poll_id) == Set::<Seq<char>>::empty(),
    ensures
        store.after(sender, poll_id, result).tallies_match(poll_id),
{
    let next = store.after(sender, poll_id, result);
    assert(next.voters(poll_id) =~= store.voters(poll_id));
    lemma_fresh_options_total(labels);
}

/// Options without votes count none.
pub proof fn lemma_fresh_options_total(labels: Seq<Seq<char>>)
    ensures
        total_votes(fresh_options(labels)) == 0,
    decreases labels.len(),
{
    if labels.len() > 0 {
        assert(fresh_options(labels).drop_last() =~= fresh_options(labels.drop_last()));
        lemma_fresh_options_total(labels.drop_last());
    }
}

} // verus!
