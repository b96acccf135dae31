//! The two record types of the ledger, the inputs of its operations, and the
//! error taxonomy.

use vstd::prelude::*;

use crate::addressing::Address;

verus! {

/// The byte cap on a proposal description.
pub const DESCRIPTION_MAXIMUM_LENGTH: usize = 50;

/// Why a call failed. Every failure aborts the whole call and leaves every
/// record unchanged; no recovery is attempted inside the ledger.
#[derive(Clone, Copy, Debug, PartialEq, Eq, Structural)]
pub enum EVotingError {
    /// The description exceeded the byte cap at creation.
    DescriptionTooLong,
    /// A vote was attempted on a proposal that is no longer ongoing.
    VotingSessionIsClosed,
    /// A vote record already exists for this (voter, proposal) pair.
    DuplicatedVoteNotAllowed,
    /// The yes counter is already at its maximum.
    MaxYesVotesReached,
    /// The no counter is already at its maximum.
    MaxNoVotesReached,
    /// A proposal record already occupies the derived key.
    AlreadyExists,
}

/// A voter's choice.
#[derive(Clone, Copy, Debug, PartialEq, Eq, Structural)]
pub enum VoteType {
    YesVote,
    NoVote,
}

/// A proposal: a votable subject with yes/no tallies. Created once, mutated
/// only by counter increments, never deleted.
pub struct Proposal {
    /// UTF-8 text of at most `DESCRIPTION_MAXIMUM_LENGTH` bytes.
    pub description: String,
    pub yes_votes: u32,
    pub no_votes: u32,
    /// True at creation; no operation of the ledger ever sets it false.
    pub ongoing: bool,
    /// The creator's key.
    pub owner: Address,
    /// The bump seed of the record's derived address.
    pub bump: u8,
}

impl Clone for Proposal {
    fn clone(&self) -> (r: Self)
        ensures
            r == *self,
    {
        Proposal {
            description: self.description.clone(),
            yes_votes: self.yes_votes,
            no_votes: self.no_votes,
            ongoing: self.ongoing,
            owner: self.owner,
            bump: self.bump,
        }
    }
}

/// An immutable record of one voter's choice on one proposal. Created once
/// per (voter, proposal) pair, never changed, never deleted.
pub struct Vote {
    /// The voter's key.
    pub user: Address,
    /// The address of the proposal voted on.
    pub proposal: Address,
    pub vote: VoteType,
    /// Free text attached to the vote.
    pub description: String,
    /// The bump seed of the record's derived address.
    pub bump: u8,
}

impl Clone for Vote {
    fn clone(&self) -> (r: Self)
        ensures
            r == *self,
    {
        Vote {
            user: self.user,
            proposal: self.proposal,
            vote: self.vote,
            description: self.description.clone(),
            bump: self.bump,
        }
    }
}

/// The inputs that identify a `create` call: the signing creator and the
/// discriminator that keys the new proposal.
#[derive(Clone, Copy)]
pub struct CreateProposal {
    /// The creator's key; it becomes the proposal's owner.
    pub user: Address,
    /// The creator's chosen discriminator; together with the creator's key it
    /// determines the proposal's address.
    pub discriminator: u64,
}

/// The inputs that identify a vote call: the signing voter and the proposal
/// voted on.
#[derive(Clone, Copy)]
pub struct AddVote {
    /// The voter's key.
    pub user: Address,
    /// The address of the proposal voted on.
    pub proposal: Address,
}

} // verus!
