//! The rows of the store and what contracts say of them.

use crate::host::addr_text;
use cosmwasm_std::Addr;
use vstd::prelude::*;

verus! {

/// The single configuration row.
#[derive(Clone, Debug, PartialEq)]
pub struct Config {
    pub admin: Addr,
}

/// A poll: who created it, what it asks, and its options in the order in
/// which they were given, each with the votes counted for it.
#[derive(Clone, Debug, PartialEq)]
pub struct Poll {
    pub admin: Addr,
    pub question: String,
    pub options: Vec<(String, u64)>,
}

/// What one voter currently chooses in one poll.
#[derive(Clone, Debug, PartialEq)]
pub struct Ballot {
    pub option: String,
}

/// A `Config` as contracts see it.
pub struct ConfigView {
    pub admin: Seq<char>,
}

/// A `Poll` as contracts see it.
pub struct PollView {
    pub admin: Seq<char>,
    pub question: Seq<char>,
    pub options: Seq<(Seq<char>, nat)>,
}

/// A `Ballot` as contracts see it.
pub struct BallotView {
    pub option: Seq<char>,
}

/// The options of a poll as pairs of a label and a count.
pub open spec fn option_views(options: Seq<(String, u64)>) -> Seq<(Seq<char>, nat)> {
    Seq::new(options.len(), |i: int| (options[i].0@, options[i].1 as nat))
}

impl View for Config {
    type V = ConfigView;

    open spec fn view(&self) -> ConfigView {
        ConfigView { admin: addr_text(self.admin) }
    }
}

impl View for Poll {
    type V = PollView;

    open spec fn view(&self) -> PollView {
        PollView {
            admin: addr_text(self.admin),
            question: self.question@,
            options: option_views(self.options@),
        }
    }
}

impl View for Ballot {
    type V = BallotView;

    open spec fn view(&self) -> BallotView {
        BallotView { option: self.option@ }
    }
}

/// The view of a row that may be absent.
pub open spec fn poll_view(poll: Option<Poll>) -> Option<PollView> {
    match poll {
        Some(p) => Some(p@),
        None => None,
    }
}

/// The view of a ballot that may be absent.
pub open spec fn ballot_view(ballot: Option<Ballot>) -> Option<BallotView> {
    match ballot {
        Some(b) => Some(b@),
        None => None,
    }
}

/// Some option carries `label`.
pub open spec fn has_option(options: Seq<(Seq<char>, nat)>, label: Seq<char>) -> bool {
    exists|i: int| 0 <= i < options.len() && (#[trigger] options[i]).0 == label
}

/// The option at `i` carries `label`, and none before it does.
pub open spec fn is_first_match(options: Seq<(Seq<char>, nat)>, label: Seq<char>, i: int) -> bool {
    &&& 0 <= i < options.len()
    &&& options[i].0 == label
    &&& forall|j: int| 0 <= j < i ==> (#[trigger] options[j]).0 != label
}

/// Where a vote for `label` is counted: at the first option that carries it.
pub open spec fn position(options: Seq<(Seq<char>, nat)>, label: Seq<char>) -> int
    recommends
        has_option(options, label),
{
    choose|i: int| is_first_match(options, label, i)
}

/// Two first matches of one label are the same index.
pub proof fn lemma_first_match_unique(
    options: Seq<(Seq<char>, nat)>,
    label: Seq<char>,
    i: int,
    j: int,
)
    requires
        is_first_match(options, label, i),
        is_first_match(options, label, j),
    ensures
        i == j,
{
    if i < j {
        assert(options[i].0 != label);
    } else if j < i {
        assert(options[j].0 != label);
    }
}

/// A first match is the position.
pub proof fn lemma_position_is(options: Seq<(Seq<char>, nat)>, label: Seq<char>, i: int)
    requires
        is_first_match(options, label, i),
    ensures
        has_option(options, label),
        position(options, label) == i,
{
    lemma_first_match_unique(options, label, i, position(options, label));
}

/// A label that occurs has a position, and the position is its first match.
pub proof fn lemma_position_of_present(options: Seq<(Seq<char>, nat)>, label: Seq<char>)
    requires
        has_option(options, label),
    ensures
        is_first_match(options, label, position(options, label)),
{
    let k = choose|i: int| 0 <= i < options.len() && (#[trigger] options[i]).0 == label;
    lemma_first_match_up_to(options, label, k);
}

/// Below an index that carries the label lies a first match.
proof fn lemma_first_match_up_to(options: Seq<(Seq<char>, nat)>, label: Seq<char>, k: int)
    requires
        0 <= k < options.len(),
        options[k].0 == label,
    ensures
        exists|i: int| is_first_match(options, label, i),
    decreases k,
{
    if exists|j: int| 0 <= j < k && (#[trigger] options[j]).0 == label {
        let j = choose|j: int| 0 <= j < k && (#[trigger] options[j]).0 == label;
        lemma_first_match_up_to(options, label, j);
    } else {
        assert(is_first_match(options, label, k));
    }
}

impl Poll {
    /// The index of the first option that carries `label`, if one does.
    pub fn position(&self, label: &String) -> (found: Option<usize>)
        ensures
            match found {
                Some(i) => is_first_match(self@.options, label@, i as int),
                None => !has_option(self@.options, label@),
            },
    {
        let mut i: usize = 0;
        while i < self.options.len()
            invariant
                i <= self.options.len(),
                forall|j: int| 0 <= j < i ==> (#[trigger] self@.options[j]).0 != label@,
            decreases self.options.len() - i,
        {
            if self.options[i].0 == *label {
                return Some(i);
            }
            i += 1;
        }
        None
    }
}

} // verus!
