//! The commands and queries of the service, as functions from the rows that
//! were read to the rows that are to be written.

use crate::error::ContractError;
use crate::host::{add_attribute, addr_text, new_response, reserved_key, response_attributes};
use crate::msg::{
    AllPollResponse, ExecuteMsg, InstantiateMsg, PollResponse, QueryMsg, QueryResponse,
    VoteResponse,
};
use crate::state::{
    ballot_view, lemma_position_is, poll_view, Ballot, BallotView, Config, Poll, PollView,
};
use crate::tally::{
    after_vote, lemma_position_with_count, lemma_vote_total, released, total_votes, vote_defined,
    with_count,
};
use cosmwasm_std::{Addr, Response, StdError};
use vstd::prelude::*;

verus! {

/// The most options that a poll may be created with.
pub const MAX_OPTIONS: usize = 10;

/// What a command leaves behind: the rows to write and the answer for the
/// caller.
#[derive(Debug, PartialEq)]
pub struct Effects {
    /// The poll to store under the poll id of the command.
    pub poll: Poll,
    /// The ballot to store for the caller under that poll id, where the
    /// command was a vote.
    pub ballot: Option<Ballot>,
    /// The answer, which names the command in its one attribute.
    pub response: Response,
}

/// The labels of the options that a poll is to be created with.
pub open spec fn labels_of(options: Seq<String>) -> Seq<Seq<char>> {
    Seq::new(options.len(), |i: int| options[i]@)
}

/// Each label as an option without votes, in the order of the labels.
pub open spec fn fresh_options(labels: Seq<Seq<char>>) -> Seq<(Seq<char>, nat)> {
    Seq::new(labels.len(), |i: int| (labels[i], 0nat))
}

/// The one attribute of a command's answer.
pub open spec fn action(name: Seq<char>) -> Seq<(Seq<char>, Seq<char>)> {
    seq![("action"@, name)]
}

/// The admin that a set-up names: the one of the message, else the caller.
pub open spec fn resolved_admin(sender: Seq<char>, admin: Option<String>) -> Seq<char> {
    match admin {
        Some(name) => name@,
        None => sender,
    }
}

/// What creating a poll returns.
pub open spec fn poll_created(
    result: Result<Effects, ContractError>,
    sender: Seq<char>,
    question: Seq<char>,
    labels: Seq<Seq<char>>,
) -> bool {
    if labels.len() > MAX_OPTIONS {
        result == Err::<Effects, ContractError>(ContractError::TooManyOptions)
    } else {
        &&& result matches Ok(effects)
        &&& effects.poll@ == (PollView { admin: sender, question, options: fresh_options(labels) })
        &&& effects.ballot is None
        &&& response_attributes(effects.response) == action("create poll"@)
    }
}

/// What a vote returns.
pub open spec fn vote_counted(
    result: Result<Effects, ContractError>,
    poll: Option<PollView>,
    ballot: Option<BallotView>,
    vote: Seq<char>,
) -> bool {
    match poll {
        None => result == Err::<Effects, ContractError>(ContractError::PollNotFound),
        Some(before) => {
            &&& result matches Ok(effects)
            &&& effects.poll@ == (PollView {
                options: after_vote(before.options, previous_choice(ballot), vote),
                ..before
            })
            &&& effects.ballot matches Some(cast)
            &&& cast@ == (BallotView { option: vote })
            &&& response_attributes(effects.response) == action("vote in poll"@)
        },
    }
}

/// The label that a ballot held before a vote, if there was a ballot.
pub open spec fn previous_choice(ballot: Option<BallotView>) -> Option<Seq<char>> {
    match ballot {
        Some(b) => Some(b.option),
        None => None,
    }
}

/// The votes that can be counted: every vote on a poll that is absent (it is
/// turned down), and on a poll that is there those that `vote_defined` admits
/// with counts of 64 bits.
pub open spec fn vote_admitted(
    poll: Option<PollView>,
    ballot: Option<BallotView>,
    vote: Seq<char>,
) -> bool {
    poll matches Some(before) ==> vote_defined(
        before.options,
        previous_choice(ballot),
        vote,
        u64::MAX as nat,
    )
}

fn action_response(name: &str) -> (response: Response)
    ensures
        response_attributes(response) == action(name@),
{
    proof {
        reveal_strlit("action");
    }
    add_attribute(new_response(), "action", name)
}

/// The admin that the host is to validate for a set-up: the one that the
/// message names, else the caller.
pub fn resolve_admin(sender: &Addr, msg: &InstantiateMsg) -> (admin: String)
    ensures
        admin@ == resolved_admin(addr_text(*sender), msg.admin),
{
    match &msg.admin {
        Some(name) => name.clone(),
        None => sender.as_str().to_owned(),
    }
}

/// Sets the service up for the caller `sender`. `validated` is the host's
/// verdict on the admin that `resolve_admin` gives for `sender` and `msg`. Where the host accepted it, the
/// result is the configuration to store, with the accepted identity as its
/// admin, and an answer of two attributes: the action, and the admin as it
/// was asked for beside the admin as it was accepted. Where the host refused,
/// its error comes back as `IdentityFormatInvalid`.
pub fn instantiate(validated: Result<Addr, StdError>, sender: &Addr, msg: InstantiateMsg) -> (result:
    Result<(Config, Response), ContractError>)
    requires
        validated is Ok ==> !reserved_key(resolved_admin(addr_text(*sender), msg.admin)),
    ensures
        match validated {
            Ok(accepted) => {
                &&& result matches Ok((config, response))
                &&& config@.admin == addr_text(accepted)
                &&& response_attributes(response) == seq![
                    ("action"@, "instantiate"@),
                    (resolved_admin(addr_text(*sender), msg.admin), addr_text(accepted)),
                ]
            },
            Err(refusal) => result == Err::<(Config, Response), ContractError>(
                ContractError::IdentityFormatInvalid(refusal),
            ),
        },
{
    match validated {
        Ok(accepted) => {
            let admin = resolve_admin(sender, &msg);
            let response = add_attribute(
                action_response("instantiate"),
                admin.as_str(),
                accepted.as_str(),
            );
            Ok((Config { admin: accepted }, response))
        },
        Err(refusal) => Err(ContractError::IdentityFormatInvalid(refusal)),
    }
}

/// Creates a poll for the caller `sender` with one option per label, in the order of
/// the labels and each without votes. More than `MAX_OPTIONS` labels are
/// turned down with `TooManyOptions`, and then there is nothing to store.
pub fn execute_create_poll(sender: Addr, question: String, options: Vec<String>) -> (result:
    Result<Effects, ContractError>)
    ensures
        poll_created(result, addr_text(sender), question@, labels_of(options@)),
{
    if options.len() > MAX_OPTIONS {
        return Err(ContractError::TooManyOptions);
    }
    let ghost labels = labels_of(options@);
    let mut opts: Vec<(String, u64)> = Vec::new();
    for option in it: options
        invariant
            it.seq() == options@,
            opts@.len() == it.index(),
            forall|j: int| 0 <= j < it.index() ==> #[trigger] opts@[j] == (it.seq()[j], 0u64),
    {
        opts.push((option, 0));
    }
    let poll = Poll { admin: sender, question, options: opts };
    assert(poll@.options =~= fresh_options(labels));
    Ok(Effects { poll, ballot: None, response: action_response("create poll") })
}

/// Puts `count` at option `i` of the poll and changes nothing else.
fn set_count(poll: &mut Poll, i: usize, count: u64)
    requires
        i < old(poll).options.len(),
    ensures
        final(poll)@ == (PollView {
            options: with_count(old(poll)@.options, i as int, count as nat),
            ..old(poll)@
        }),
{
    poll.options[i].1 = count;
    assert(poll@.options =~= with_count(old(poll)@.options, i as int, count as nat));
}

/// Whether a vote can be counted on these rows, as `execute_vote` asks.
pub fn vote_is_admitted(poll: &Option<Poll>, ballot: &Option<Ballot>, vote: &String) -> (admitted:
    bool)
    ensures
        admitted == vote_admitted(poll_view(*poll), ballot_view(*ballot), vote@),
{
    let poll = match poll {
        Some(found) => found,
        None => {
            return true;
        },
    };
    let ghost options = poll@.options;
    let to = match poll.position(vote) {
        Some(i) => i,
        None => {
            return false;
        },
    };
    proof {
        lemma_position_is(options, vote@, to as int);
    }
    match ballot {
        Some(cast) => {
            let from = match poll.position(&cast.option) {
                Some(i) => i,
                None => {
                    return false;
                },
            };
            proof {
                lemma_position_is(options, cast.option@, from as int);
                lemma_position_with_count(
                    options,
                    from as int,
                    (options[from as int].1 - 1) as nat,
                    vote@,
                );
            }
            poll.options[from].1 >= 1 && (from == to || poll.options[to].1 < u64::MAX)
        },
        None => poll.options[to].1 < u64::MAX,
    }
}

/// Counts a vote. `poll` is the row under the poll id that the vote names and
/// `ballot` the caller's ballot on it, each as the store holds it. Without
/// the poll the vote is turned down with `PollNotFound`. Else the vote that
/// the ballot recorded is taken back, the new one is counted at the first
/// option that carries its label, and the ballot reads `vote`: the sum of
/// the counts grows by one on a first vote and stays on a later one.
pub fn execute_vote(poll: Option<Poll>, ballot: Option<Ballot>, vote: String) -> (result: Result<
    Effects,
    ContractError,
>)
    requires
        vote_admitted(poll_view(poll), ballot_view(ballot), vote@),
    ensures
        vote_counted(result, poll_view(poll), ballot_view(ballot), vote@),
        poll matches Some(before) ==> result matches Ok(effects) && total_votes(
            effects.poll@.options,
        ) == total_votes(before@.options) + (if ballot is None {
            1nat
        } else {
            0nat
        }),
{
    let mut poll = match poll {
        Some(found) => found,
        None => {
            return Err(ContractError::PollNotFound);
        },
    };
    let ghost before = poll@.options;
    let ghost previous = previous_choice(ballot_view(ballot));
    proof {
        lemma_vote_total(before, previous, vote@);
    }
    match ballot {
        Some(cast) => {
            let position_of_old_vote = poll.position(&cast.option).unwrap();
            proof {
                lemma_position_is(before, cast.option@, position_of_old_vote as int);
                lemma_position_with_count(
                    before,
                    position_of_old_vote as int,
                    (before[position_of_old_vote as int].1 - 1) as nat,
                    vote@,
                );
            }
            let count = poll.options[position_of_old_vote].1;
            set_count(&mut poll, position_of_old_vote, count - 1);
        },
        None => {},
    }
    assert(poll@.options == released(before, previous));
    let position = poll.position(&vote).unwrap();
    proof {
        lemma_position_is(poll@.options, vote@, position as int);
    }
    let count = poll.options[position].1;
    set_count(&mut poll, position, count + 1);
    Ok(Effects { poll, ballot: Some(Ballot { option: vote }), response: action_response("vote in poll") })
}

/// Runs a command for the caller `sender`. `poll` and `ballot` are the rows
/// that the store holds under the poll id of the command and, for the
/// ballot, the caller; creating a poll reads neither.
pub fn execute(sender: Addr, msg: ExecuteMsg, poll: Option<Poll>, ballot: Option<Ballot>) -> (result:
    Result<Effects, ContractError>)
    requires
        msg matches ExecuteMsg::Vote { vote, .. } ==> vote_admitted(
            poll_view(poll),
            ballot_view(ballot),
            vote@,
        ),
    ensures
        match msg {
            ExecuteMsg::CreatePoll { question, options, .. } => poll_created(
                result,
                addr_text(sender),
                question@,
                labels_of(options@),
            ),
            ExecuteMsg::Vote { vote, .. } => vote_counted(
                result,
                poll_view(poll),
                ballot_view(ballot),
                vote@,
            ),
        },
{
    match msg {
        ExecuteMsg::CreatePoll { poll_id: _, question, options } => execute_create_poll(
            sender,
            question,
            options,
        ),
        ExecuteMsg::Vote { poll_id: _, vote } => execute_vote(poll, ballot, vote),
    }
}

/// Every poll of the store. `rows` are the poll rows with their keys, as the
/// store hands them out; the answer holds their polls in that order.
pub fn query_all_poll(rows: Vec<(String, Poll)>) -> (response: AllPollResponse)
    ensures
        response.polls@ == Seq::new(rows@.len(), |i: int| rows@[i].1),
{
    let mut polls: Vec<Poll> = Vec::new();
    for row in it: rows
        invariant
            it.seq() == rows@,
            polls@.len() == it.index(),
            forall|j: int| 0 <= j < it.index() ==> #[trigger] polls@[j] == it.seq()[j].1,
    {
        polls.push(row.1);
    }
    AllPollResponse { polls }
}

/// One poll. `poll` is the row under the id asked for; where the store holds
/// none, the answer is empty.
pub fn query_poll(poll: Option<Poll>) -> (response: PollResponse)
    ensures
        response.poll == poll,
{
    PollResponse { poll }
}

/// One ballot. `vote` is the row of the voter and poll asked for; where the
/// store holds none, the answer is empty.
pub fn query_vote(vote: Option<Ballot>) -> (response: VoteResponse)
    ensures
        response.vote == vote,
{
    VoteResponse { vote }
}

/// Answers a query from the rows that were read for it: `polls` for
/// `AllPoll`, `poll` for `Poll`, `vote` for `Vote`. The rows that the query
/// does not ask for are not looked at.
pub fn query(msg: QueryMsg, polls: Vec<(String, Poll)>, poll: Option<Poll>, vote: Option<Ballot>) -> (response:
    QueryResponse)
    ensures
        match msg {
            QueryMsg::AllPoll {  } => response matches QueryResponse::AllPoll(all)
                && all.polls@ == Seq::new(polls@.len(), |i: int| polls@[i].1),
            QueryMsg::Poll { .. } => response == QueryResponse::Poll(PollResponse { poll }),
            QueryMsg::Vote { .. } => response == QueryResponse::Vote(VoteResponse { vote }),
        },
{
    match msg {
        QueryMsg::AllPoll {  } => QueryResponse::AllPoll(query_all_poll(polls)),
        QueryMsg::Poll { poll_id: _ } => QueryResponse::Poll(query_poll(poll)),
        QueryMsg::Vote { poll_id: _, address: _ } => QueryResponse::Vote(query_vote(vote)),
    }
}

} // verus!
