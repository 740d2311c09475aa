//! How a vote changes the counts of a poll, and what that does to their sum.

use crate::state::{has_option, is_first_match, lemma_position_is, lemma_position_of_present, position};
use vstd::prelude::*;

verus! {

/// The votes counted over all options.
pub open spec fn total_votes(options: Seq<(Seq<char>, nat)>) -> nat
    decreases options.len(),
{
    if options.len() == 0 {
        0
    } else {
        total_votes(options.drop_last()) + options.last().1
    }
}

/// The options with the count at `i` replaced by `count`.
pub open spec fn with_count(options: Seq<(Seq<char>, nat)>, i: int, count: nat) -> Seq<
    (Seq<char>, nat),
> {
    options.update(i, (options[i].0, count))
}

/// The options once the vote that a ballot recorded is taken back: one less
/// at the position of its label. Without a ballot nothing is taken back.
pub open spec fn released(options: Seq<(Seq<char>, nat)>, previous: Option<Seq<char>>) -> Seq<
    (Seq<char>, nat),
> {
    match previous {
        Some(label) => {
            let i = position(options, label);
            with_count(options, i, (options[i].1 - 1) as nat)
        },
        None => options,
    }
}

/// The options once a vote for `label` is counted: one more at its position.
pub open spec fn counted(options: Seq<(Seq<char>, nat)>, label: Seq<char>) -> Seq<
    (Seq<char>, nat),
> {
    let i = position(options, label);
    with_count(options, i, options[i].1 + 1)
}

/// The options after a voter whose ballot so far read `previous` votes for
/// `vote`.
pub open spec fn after_vote(
    options: Seq<(Seq<char>, nat)>,
    previous: Option<Seq<char>>,
    vote: Seq<char>,
) -> Seq<(Seq<char>, nat)> {
    counted(released(options, previous), vote)
}

/// The inputs on which a vote can be counted: its label is an option of the
/// poll, the label of an earlier ballot is one too and has a vote to give
/// back, and the count that grows stays within `limit`.
pub open spec fn vote_defined(
    options: Seq<(Seq<char>, nat)>,
    previous: Option<Seq<char>>,
    vote: Seq<char>,
    limit: nat,
) -> bool {
    &&& has_option(options, vote)
    &&& previous matches Some(label) ==> has_option(options, label) && options[position(
        options,
        label,
    )].1 >= 1
    &&& after_vote(options, previous, vote)[position(options, vote)].1 <= limit
}

/// Replacing one count changes the sum by the difference.
pub proof fn lemma_total_with_count(options: Seq<(Seq<char>, nat)>, i: int, count: nat)
    requires
        0 <= i < options.len(),
    ensures
        total_votes(with_count(options, i, count)) + options[i].1 == total_votes(options) + count,
    decreases options.len(),
{
    let changed = with_count(options, i, count);
    if i == options.len() - 1 {
        assert(changed.drop_last() =~= options.drop_last());
    } else {
        assert(changed.drop_last() =~= with_count(options.drop_last(), i, count));
        lemma_total_with_count(options.drop_last(), i, count);
    }
}

/// Changing a count moves no label, so every label keeps its position.
pub proof fn lemma_position_with_count(
    options: Seq<(Seq<char>, nat)>,
    i: int,
    count: nat,
    label: Seq<char>,
)
    requires
        0 <= i < options.len(),
        has_option(options, label),
    ensures
        has_option(with_count(options, i, count), label),
        position(with_count(options, i, count), label) == position(options, label),
{
    let changed = with_count(options, i, count);
    lemma_position_of_present(options, label);
    let p = position(options, label);
    assert(changed[p].0 == label);
    assert forall|j: int| 0 <= j < p implies (#[trigger] changed[j]).0 != label by {
        assert(options[j].0 != label);
    }
    assert(is_first_match(changed, label, p));
    lemma_position_is(changed, label, p);
}

/// A first vote adds one at the position of the chosen label, leaves every
/// other option as it was, and raises the sum by one.
pub proof fn lemma_first_vote(options: Seq<(Seq<char>, nat)>, vote: Seq<char>)
    requires
        has_option(options, vote),
    ensures
        ({
            let after = after_vote(options, None, vote);
            let i = position(options, vote);
            &&& after.len() == options.len()
            &&& after[i] == (vote, options[i].1 + 1)
            &&& forall|j: int| 0 <= j < options.len() && j != i ==> after[j] == options[j]
            &&& total_votes(after) == total_votes(options) + 1
        }),
{
    lemma_position_of_present(options, vote);
    lemma_total_with_count(options, position(options, vote), options[position(options, vote)].1 + 1);
}

/// A vote for another label than the ballot's moves one vote: one less at
/// the position of the old label, one more at that of the new one, every
/// other option as it was, and the sum unchanged.
pub proof fn lemma_changed_vote(options: Seq<(Seq<char>, nat)>, previous: Seq<char>, vote: Seq<char>)
    requires
        has_option(options, previous),
        has_option(options, vote),
        options[position(options, previous)].1 >= 1,
        previous != vote,
    ensures
        ({
            let after = after_vote(options, Some(previous), vote);
            let from = position(options, previous);
            let to = position(options, vote);
            &&& after.len() == options.len()
            &&& from != to
            &&& after[from] == (previous, (options[from].1 - 1) as nat)
            &&& after[to] == (vote, options[to].1 + 1)
            &&& forall|j: int|
                0 <= j < options.len() && j != from && j != to ==> after[j] == options[j]
            &&& total_votes(after) == total_votes(options)
        }),
{
    lemma_position_of_present(options, previous);
    lemma_position_of_present(options, vote);
    let from = position(options, previous);
    let to = position(options, vote);
    let lowered = (options[from].1 - 1) as nat;
    let middle = released(options, Some(previous));
    lemma_position_with_count(options, from, lowered, vote);
    lemma_total_with_count(options, from, lowered);
    lemma_total_with_count(middle, to, middle[to].1 + 1);
}

/// A vote for the label that the ballot already holds changes no count.
pub proof fn lemma_repeated_vote(options: Seq<(Seq<char>, nat)>, vote: Seq<char>)
    requires
        has_option(options, vote),
        options[position(options, vote)].1 >= 1,
    ensures
        after_vote(options, Some(vote), vote) == options,
{
    lemma_position_of_present(options, vote);
    let i = position(options, vote);
    let lowered = (options[i].1 - 1) as nat;
    lemma_position_with_count(options, i, lowered, vote);
    assert(after_vote(options, Some(vote), vote) =~= options);
}

/// Whatever the ballot held, a vote that can be counted keeps the number of
/// options and their labels, and raises the sum by one exactly when there
/// was no ballot.
pub proof fn lemma_vote_total(
    options: Seq<(Seq<char>, nat)>,
    previous: Option<Seq<char>>,
    vote: Seq<char>,
)
    requires
        has_option(options, vote),
        previous matches Some(label) ==> has_option(options, label) && options[position(
            options,
            label,
        )].1 >= 1,
    ensures
        after_vote(options, previous, vote).len() == options.len(),
        forall|j: int|
            0 <= j < options.len() ==> (#[trigger] after_vote(options, previous, vote)[j]).0
                == options[j].0,
        total_votes(after_vote(options, previous, vote)) == total_votes(options) + (if previous
            is None {
            1nat
        } else {
            0nat
        }),
{
    lemma_position_of_present(options, vote);
    match previous {
        None => {
            lemma_first_vote(options, vote);
        },
        Some(label) => {
            lemma_position_of_present(options, label);
            if label == vote {
                lemma_repeated_vote(options, vote);
            } else {
                lemma_changed_vote(options, label, vote);
            }
        },
    }
}

} // verus!
