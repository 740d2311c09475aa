//! What a command can fail with.

use cosmwasm_std::StdError;
use vstd::prelude::*;

verus! {

/// The failures that the library reports.
#[derive(Debug, PartialEq)]
pub enum ContractError {
    /// The host refused an identity; its own error is carried along.
    IdentityFormatInvalid(StdError),
    /// A poll was to be created with more than `MAX_OPTIONS` options.
    TooManyOptions,
    /// A vote named a poll that the store does not hold.
    PollNotFound,
}

impl ContractError {
    /// The text that a caller is shown for a failure the library itself
    /// detected; `None` where the host's error speaks for itself.
    pub fn message(&self) -> (text: Option<String>)
        ensures
            match *self {
                ContractError::IdentityFormatInvalid(_) => text is None,
                ContractError::TooManyOptions => text is Some && text->0@ == "Too many poll options"@,
                ContractError::PollNotFound => text is Some && text->0@ == "Poll not found"@,
            },
    {
        match self {
            ContractError::IdentityFormatInvalid(_) => None,
            ContractError::TooManyOptions => Some("Too many poll options".to_owned()),
            ContractError::PollNotFound => Some("Poll not found".to_owned()),
        }
    }
}

} // verus!
