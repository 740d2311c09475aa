//! The messages that reach the service and the answers to its queries.

use crate::state::{Ballot, Poll};
use vstd::prelude::*;

verus! {

/// Sets the service up. Without an `admin` the caller becomes the admin.
#[derive(Clone, Debug, PartialEq)]
pub struct InstantiateMsg {
    pub admin: Option<String>,
}

/// The commands, which change the store.
#[derive(Clone, Debug, PartialEq)]
pub enum ExecuteMsg {
    CreatePoll { poll_id: String, question: String, options: Vec<String> },
    Vote { poll_id: String, vote: String },
}

/// The queries, which only read.
#[derive(Clone, Debug, PartialEq)]
pub enum QueryMsg {
    AllPoll {  },
    Poll { poll_id: String },
    Vote { poll_id: String, address: String },
}

/// Every poll of the store.
#[derive(Clone, Debug, PartialEq)]
pub struct AllPollResponse {
    pub polls: Vec<Poll>,
}

/// One poll, or nothing where the store holds none under the id asked for.
#[derive(Clone, Debug, PartialEq)]
pub struct PollResponse {
    pub poll: Option<Poll>,
}

/// One ballot, or nothing where the voter has not voted in the poll.
#[derive(Clone, Debug, PartialEq)]
pub struct VoteResponse {
    pub vote: Option<Ballot>,
}

/// A free-form answer.
#[derive(Clone, Debug, PartialEq)]
pub struct CustomResponse {
    val: String,
}

/// The message of a migration, which carries nothing.
#[derive(Clone, Debug, PartialEq)]
pub struct MigrateMsg {}

/// The answer to a query, of the kind that the query asked for.
#[derive(Clone, Debug, PartialEq)]
pub enum QueryResponse {
    AllPoll(AllPollResponse),
    Poll(PollResponse),
    Vote(VoteResponse),
}

impl View for CustomResponse {
    type V = Seq<char>;

    closed spec fn view(&self) -> Seq<char> {
        self.val@
    }
}

impl CustomResponse {
    /// An answer that holds `val`.
    pub fn new(val: String) -> (response: CustomResponse)
        ensures
            response@ == val@,
    {
        CustomResponse { val }
    }

    /// The text that the answer holds.
    pub fn val(&self) -> (val: &String)
        ensures
            val@ == self@,
    {
        &self.val
    }
}

} // verus!
