//! The ledger: a proposal store, a vote store, and the vote state machine.
//!
//! Each store keeps records keyed by their derived address and only ever
//! creates a record at a key that is still free, so a given identity maps to
//! at most one record for its entire lifetime. Every call is all-or-nothing:
//! a failure at any step leaves every record unchanged.

use vstd::prelude::*;
use vstd::utf8::encode_utf8;

use crate::addressing::{
    addr_eq, derive_proposal_address, derive_vote_address, proposal_key, vote_key, Address,
};
use crate::state::{
    AddVote, CreateProposal, EVotingError, Proposal, Vote, VoteType, DESCRIPTION_MAXIMUM_LENGTH,
};

verus! {

/// Whether some record of `records` sits at the key `key`.
pub open spec fn has_key<T>(records: Seq<(Address, T)>, key: Seq<u8>) -> bool {
    exists|i: int| 0 <= i < records.len() && records[i].0@ == key
}

/// Whether no two records of `records` share a key: the create-if-absent
/// discipline of the stores keeps this true.
pub open spec fn unique_keys<T>(records: Seq<(Address, T)>) -> bool {
    forall|i: int, j: int| 0 <= i < j < records.len() ==> records[i].0@ != records[j].0@
}

/// Whether a vote record sits at the key derived from its own voter and
/// proposal, carrying that derivation's bump seed.
pub open spec fn vote_record_bound(program_id: Seq<u8>, record: (Address, Vote)) -> bool {
    vote_key(program_id, record.1.user@, record.1.proposal@) matches Some(q) && record.0@ == q.0
        && record.1.bump == q.1
}

/// The shared ledger state: every record of both stores, keyed by address.
pub struct Ledger {
    /// The program id that address derivation is bound to.
    pub program_id: Address,
    /// The proposal store.
    pub proposals: Vec<(Address, Proposal)>,
    /// The vote store.
    pub votes: Vec<(Address, Vote)>,
}

impl Ledger {
    /// Well-formedness: no two records share a key, and every vote record
    /// sits at the key derived from its own (voter, proposal) pair.
    pub open spec fn wf(self) -> bool {
        &&& unique_keys(self.proposals@)
        &&& unique_keys(self.votes@)
        &&& forall|i: int|
            0 <= i < self.votes@.len() ==> vote_record_bound(
                self.program_id@,
                #[trigger] self.votes@[i],
            )
    }

    /// An empty ledger bound to `program_id`.
    pub fn new(program_id: Address) -> (r: Ledger)
        ensures
            r.wf(),
            r.program_id == program_id,
            r.proposals@ =~= Seq::<(Address, Proposal)>::empty(),
            r.votes@ =~= Seq::<(Address, Vote)>::empty(),
    {
        Ledger { program_id, proposals: Vec::new(), votes: Vec::new() }
    }
}

/// The index of the record at `key`, if any.
fn find_index<T>(records: &Vec<(Address, T)>, key: &Address) -> (r: Option<usize>)
    ensures
        r matches Some(i) ==> i < records@.len() && records@[i as int].0@ == key@,
        r is None ==> !has_key(records@, key@),
{
    let n = records.len();
    let mut i: usize = 0;
    while i < n
        invariant
            n == records@.len(),
            i <= n,
            forall|j: int| 0 <= j < i ==> records@[j].0@ != key@,
        decreases n - i,
    {
        if addr_eq(&records[i].0, key) {
            return Some(i);
        }
        i = i + 1;
    }
    None
}

/// The byte length of a description, as `str::len` reports it.
pub open spec fn description_byte_len(description: String) -> usize {
    encode_utf8(description@).len() as usize
}

/// What `create` leaves behind. If the description is over the cap the call
/// fails with `DescriptionTooLong` and nothing changes; if the derived key is
/// already occupied it fails with `AlreadyExists` and nothing changes; else a
/// fresh proposal record is appended at the derived key, holding the given
/// description verbatim, zero tallies, an ongoing session, the creator as
/// owner, and the derivation's bump seed.
pub open spec fn create_post(
    pre: Ledger,
    post: Ledger,
    ctx: CreateProposal,
    description: String,
    r: Result<Address, EVotingError>,
) -> bool {
    if description_byte_len(description) > DESCRIPTION_MAXIMUM_LENGTH {
        r == Err::<Address, EVotingError>(EVotingError::DescriptionTooLong) && post == pre
    } else {
        proposal_key(pre.program_id@, ctx.user@, ctx.discriminator) matches Some(q) ==> if has_key(
            pre.proposals@,
            q.0,
        ) {
            r == Err::<Address, EVotingError>(EVotingError::AlreadyExists) && post == pre
        } else {
            &&& r matches Ok(a)
            &&& a@ == q.0
            &&& post.program_id == pre.program_id
            &&& post.votes == pre.votes
            &&& post.proposals@ == pre.proposals@.push(
                (
                    a,
                    (Proposal {
                        description: description,
                        yes_votes: 0u32,
                        no_votes: 0u32,
                        ongoing: true,
                        owner: ctx.user,
                        bump: q.1,
                    }),
                ),
            )
        }
    }
}

/// Create the proposal identified by `ctx` with the given description, and
/// return its derived address.
///
/// The derived key must exist; `try_create` makes the same call without that
/// assumption.
pub fn create(ledger: &mut Ledger, ctx: CreateProposal, description: String) -> (r: Result<
    Address,
    EVotingError,
>)
    requires
        old(ledger).wf(),
        proposal_key(old(ledger).program_id@, ctx.user@, ctx.discriminator) is Some,
    ensures
        final(ledger).wf(),
        create_post(*old(ledger), *final(ledger), ctx, description, r),
{
    if description.as_str().len() > DESCRIPTION_MAXIMUM_LENGTH {
        return Err(EVotingError::DescriptionTooLong);
    }
    match derive_proposal_address(&ledger.program_id, &ctx.user, ctx.discriminator) {
        None => {
            // the requires rules this arm out
            Err(EVotingError::AlreadyExists)
        },
        Some((addr, bump)) => {
            if find_index(&ledger.proposals, &addr).is_some() {
                return Err(EVotingError::AlreadyExists);
            }
            let record = Proposal {
                description,
                yes_votes: 0,
                no_votes: 0,
                ongoing: true,
                owner: ctx.user,
                bump,
            };
            ledger.proposals.push((addr, record));
            Ok(addr)
        },
    }
}

/// Create the proposal identified by `ctx`, deriving its key first: `None`
/// when no key can be derived for `ctx` (the ledger is then unchanged), and
/// otherwise the outcome of `create`.
pub fn try_create(ledger: &mut Ledger, ctx: CreateProposal, description: String) -> (r: Option<
    Result<Address, EVotingError>,
>)
    requires
        old(ledger).wf(),
    ensures
        final(ledger).wf(),
        r is Some <==> proposal_key(old(ledger).program_id@, ctx.user@, ctx.discriminator) is Some,
        r is None ==> *final(ledger) == *old(ledger),
        r matches Some(res) ==> create_post(*old(ledger), *final(ledger), ctx, description, res),
{
    match derive_proposal_address(&ledger.program_id, &ctx.user, ctx.discriminator) {
        None => None,
        Some(_) => Some(create(ledger, ctx, description)),
    }
}

/// The counter of `p` that a vote of kind `vote_type` increments.
pub open spec fn counter_of(p: Proposal, vote_type: VoteType) -> u32 {
    match vote_type {
        VoteType::YesVote => p.yes_votes,
        VoteType::NoVote => p.no_votes,
    }
}

/// The error reported when the counter of `vote_type` would overflow.
pub open spec fn max_votes_error(vote_type: VoteType) -> EVotingError {
    match vote_type {
        VoteType::YesVote => EVotingError::MaxYesVotesReached,
        VoteType::NoVote => EVotingError::MaxNoVotesReached,
    }
}

/// `p` with the counter of `vote_type` one higher and every other field
/// unchanged.
pub open spec fn incremented(p: Proposal, vote_type: VoteType) -> Proposal {
    match vote_type {
        VoteType::YesVote => (Proposal { yes_votes: (p.yes_votes + 1) as u32, ..p }),
        VoteType::NoVote => (Proposal { no_votes: (p.no_votes + 1) as u32, ..p }),
    }
}

/// What a vote call leaves behind, relative to the record of the proposal
/// voted on, which sits at index `i`. The checks run in order: a proposal
/// whose session is closed rejects every vote; then an occupied vote key
/// means this voter already voted on this proposal; then a counter at its
/// maximum cannot grow. Each failure leaves everything unchanged. On success
/// the matching counter grows by one, the other stays, and a fresh vote
/// record is appended at the derived key, holding the voter, the proposal,
/// the choice, the given description verbatim and the derivation's bump seed.
pub open spec fn vote_post_at(
    pre: Ledger,
    post: Ledger,
    i: int,
    ctx: AddVote,
    vote_type: VoteType,
    description: String,
    r: Result<Address, EVotingError>,
) -> bool {
    let p = pre.proposals@[i].1;
    if !p.ongoing {
        r == Err::<Address, EVotingError>(EVotingError::VotingSessionIsClosed) && post == pre
    } else {
        vote_key(pre.program_id@, ctx.user@, ctx.proposal@) matches Some(q) ==> if has_key(
            pre.votes@,
            q.0,
        ) {
            r == Err::<Address, EVotingError>(EVotingError::DuplicatedVoteNotAllowed) && post
                == pre
        } else if counter_of(p, vote_type) == u32::MAX {
            r == Err::<Address, EVotingError>(max_votes_error(vote_type)) && post == pre
        } else {
            &&& r matches Ok(a)
            &&& a@ == q.0
            &&& post.program_id == pre.program_id
            &&& post.proposals@ == pre.proposals@.update(
                i,
                (pre.proposals@[i].0, incremented(p, vote_type)),
            )
            &&& post.votes@ == pre.votes@.push(
                (
                    a,
                    (Vote {
                        user: ctx.user,
                        proposal: ctx.proposal,
                        vote: vote_type,
                        description: description,
                        bump: q.1,
                    }),
                ),
            )
        }
    }
}

/// What a vote call leaves behind: `vote_post_at` holds at every index of
/// the proposal voted on (under well-formedness there is at most one).
pub open spec fn vote_post(
    pre: Ledger,
    post: Ledger,
    ctx: AddVote,
    vote_type: VoteType,
    description: String,
    r: Result<Address, EVotingError>,
) -> bool {
    forall|i: int|
        0 <= i < pre.proposals@.len() && (#[trigger] pre.proposals@[i]).0@ == ctx.proposal@
            ==> vote_post_at(pre, post, i, ctx, vote_type, description, r)
}

/// Cast a vote of kind `vote_type` by `ctx.user` on the proposal at
/// `ctx.proposal`, and return the new vote record's derived address.
///
/// The proposal must exist and the vote's derived key must exist; `vote_yes`
/// and `vote_no` make the same call without the latter assumption.
pub fn vote(ledger: &mut Ledger, ctx: AddVote, vote_type: VoteType, description: String) -> (r:
    Result<Address, EVotingError>)
    requires
        old(ledger).wf(),
        has_key(old(ledger).proposals@, ctx.proposal@),
        vote_key(old(ledger).program_id@, ctx.user@, ctx.proposal@) is Some,
    ensures
        final(ledger).wf(),
        vote_post(*old(ledger), *final(ledger), ctx, vote_type, description, r),
{
    let i = match find_index(&ledger.proposals, &ctx.proposal) {
        Some(i) => i,
        None => {
            // the requires rules this arm out
            return Err(EVotingError::VotingSessionIsClosed);
        },
    };
    proof {
        assert forall|j: int|
            0 <= j < ledger.proposals@.len() && (#[trigger] ledger.proposals@[j]).0@
                == ctx.proposal@ implies j == i by {
            if j < i as int {
                assert(ledger.proposals@[j].0@ != ledger.proposals@[i as int].0@);
            } else if (i as int) < j {
                assert(ledger.proposals@[i as int].0@ != ledger.proposals@[j].0@);
            }
        }
    }
    if !ledger.proposals[i].1.ongoing {
        return Err(EVotingError::VotingSessionIsClosed);
    }
    let (vote_addr, vote_bump) = match derive_vote_address(
        &ledger.program_id,
        &ctx.user,
        &ctx.proposal,
    ) {
        Some(p) => p,
        None => {
            // the requires rules this arm out
            return Err(EVotingError::VotingSessionIsClosed);
        },
    };
    if find_index(&ledger.votes, &vote_addr).is_some() {
        return Err(EVotingError::DuplicatedVoteNotAllowed);
    }
    let at_max = match vote_type {
        VoteType::YesVote => ledger.proposals[i].1.yes_votes == u32::MAX,
        VoteType::NoVote => ledger.proposals[i].1.no_votes == u32::MAX,
    };
    if at_max {
        return Err(match vote_type {
            VoteType::YesVote => EVotingError::MaxYesVotesReached,
            VoteType::NoVote => EVotingError::MaxNoVotesReached,
        });
    }
    let (proposal_addr, mut proposal) = ledger.proposals.remove(i);
    match vote_type {
        VoteType::YesVote => {
            proposal.yes_votes = proposal.yes_votes + 1;
        },
        VoteType::NoVote => {
            proposal.no_votes = proposal.no_votes + 1;
        },
    }
    ledger.proposals.insert(i, (proposal_addr, proposal));
    proof {
        assert(ledger.proposals@ =~= old(ledger).proposals@.update(
            i as int,
            (
                old(ledger).proposals@[i as int].0,
                incremented(old(ledger).proposals@[i as int].1, vote_type),
            ),
        ));
    }
    let record = Vote {
        user: ctx.user,
        proposal: ctx.proposal,
        vote: vote_type,
        description,
        bump: vote_bump,
    };
    ledger.votes.push((vote_addr, record));
    Ok(vote_addr)
}

/// Cast a yes-vote, deriving the vote record's key first: `None` when no key
/// can be derived for the (voter, proposal) pair (the ledger is then
/// unchanged), and otherwise the outcome of `vote`.
pub fn vote_yes(ledger: &mut Ledger, ctx: AddVote, description: String) -> (r: Option<
    Result<Address, EVotingError>,
>)
    requires
        old(ledger).wf(),
        has_key(old(ledger).proposals@, ctx.proposal@),
    ensures
        final(ledger).wf(),
        r is Some <==> vote_key(old(ledger).program_id@, ctx.user@, ctx.proposal@) is Some,
        r is None ==> *final(ledger) == *old(ledger),
        r matches Some(res) ==> vote_post(
            *old(ledger),
            *final(ledger),
            ctx,
            VoteType::YesVote,
            description,
            res,
        ),
{
    match derive_vote_address(&ledger.program_id, &ctx.user, &ctx.proposal) {
        None => None,
        Some(_) => Some(vote(ledger, ctx, VoteType::YesVote, description)),
    }
}

/// Cast a no-vote, deriving the vote record's key first: `None` when no key
/// can be derived for the (voter, proposal) pair (the ledger is then
/// unchanged), and otherwise the outcome of `vote`.
pub fn vote_no(ledger: &mut Ledger, ctx: AddVote, description: String) -> (r: Option<
    Result<Address, EVotingError>,
>)
    requires
        old(ledger).wf(),
        has_key(old(ledger).proposals@, ctx.proposal@),
    ensures
        final(ledger).wf(),
        r is Some <==> vote_key(old(ledger).program_id@, ctx.user@, ctx.proposal@) is Some,
        r is None ==> *final(ledger) == *old(ledger),
        r matches Some(res) ==> vote_post(
            *old(ledger),
            *final(ledger),
            ctx,
            VoteType::NoVote,
            description,
            res,
        ),
{
    match derive_vote_address(&ledger.program_id, &ctx.user, &ctx.proposal) {
        None => None,
        Some(_) => Some(vote(ledger, ctx, VoteType::NoVote, description)),
    }
}

impl Ledger {
    /// The proposal record at `key`, if any.
    pub fn get_proposal(&self, key: &Address) -> (r: Option<Proposal>)
        ensures
            r is Some <==> has_key(self.proposals@, key@),
            r matches Some(p) ==> exists|i: int|
                0 <= i < self.proposals@.len() && (#[trigger] self.proposals@[i]).0@ == key@
                    && self.proposals@[i].1 == p,
    {
        match find_index(&self.proposals, key) {
            Some(i) => Some(self.proposals[i].1.clone()),
            None => None,
        }
    }

    /// The vote record at `key`, if any.
    pub fn get_vote(&self, key: &Address) -> (r: Option<Vote>)
        ensures
            r is Some <==> has_key(self.votes@, key@),
            r matches Some(v) ==> exists|i: int|
                0 <= i < self.votes@.len() && (#[trigger] self.votes@[i]).0@ == key@
                    && self.votes@[i].1 == v,
    {
        match find_index(&self.votes, key) {
            Some(i) => Some(self.votes[i].1.clone()),
            None => None,
        }
    }

    /// How many proposal records exist.
    pub fn proposal_count(&self) -> (n: usize)
        ensures
            n == self.proposals@.len(),
    {
        self.proposals.len()
    }

    /// How many vote records exist.
    pub fn vote_count(&self) -> (n: usize)
        ensures
            n == self.votes@.len(),
    {
        self.votes.len()
    }
}

/// A given key maps to at most one proposal record for its entire lifetime:
/// in a well-formed ledger, two proposal records that share a key are the
/// same record.
pub proof fn lemma_one_proposal_per_key(ledger: Ledger, i: int, j: int)
    requires
        ledger.wf(),
        0 <= i < ledger.proposals@.len(),
        0 <= j < ledger.proposals@.len(),
        ledger.proposals@[i].0@ == ledger.proposals@[j].0@,
    ensures
        i == j,
{
}

/// At most one vote record ever exists for a (voter, proposal) pair: in a
/// well-formed ledger, two vote records that agree on voter and proposal are
/// the same record. Both sit at the key derived from the pair, and distinct
/// records have distinct keys.
pub proof fn lemma_one_vote_per_pair(ledger: Ledger, i: int, j: int)
    requires
        ledger.wf(),
        0 <= i < ledger.votes@.len(),
        0 <= j < ledger.votes@.len(),
        ledger.votes@[i].1.user@ == ledger.votes@[j].1.user@,
        ledger.votes@[i].1.proposal@ == ledger.votes@[j].1.proposal@,
    ensures
        i == j,
{
    assert(vote_record_bound(ledger.program_id@, ledger.votes@[i]));
    assert(vote_record_bound(ledger.program_id@, ledger.votes@[j]));
    if i < j {
        assert(ledger.votes@[i].0@ != ledger.votes@[j].0@);
    } else if j < i {
        assert(ledger.votes@[j].0@ != ledger.votes@[i].0@);
    }
}

/// A second vote with the same (voter, proposal) pair fails with
/// `DuplicatedVoteNotAllowed` and leaves both counters — and everything
/// else — unchanged: the record of the earlier vote, at index `k`, occupies
/// the key the new vote would need.
pub proof fn lemma_second_vote_rejected(
    pre: Ledger,
    post: Ledger,
    ctx: AddVote,
    vote_type: VoteType,
    description: String,
    r: Result<Address, EVotingError>,
    i: int,
    k: int,
)
    requires
        pre.wf(),
        vote_post(pre, post, ctx, vote_type, description, r),
        0 <= i < pre.proposals@.len(),
        pre.proposals@[i].0@ == ctx.proposal@,
        pre.proposals@[i].1.ongoing,
        0 <= k < pre.votes@.len(),
        pre.votes@[k].1.user@ == ctx.user@,
        pre.votes@[k].1.proposal@ == ctx.proposal@,
    ensures
        r == Err::<Address, EVotingError>(EVotingError::DuplicatedVoteNotAllowed),
        post == pre,
{
    assert(vote_record_bound(pre.program_id@, pre.votes@[k]));
    assert(vote_post_at(pre, post, i, ctx, vote_type, description, r));
}

/// A successful vote on the proposal at index `i` raises the matching
/// counter by exactly one and leaves the other counter, and every other
/// field of the proposal, unchanged.
pub proof fn lemma_successful_vote_increments(
    pre: Ledger,
    post: Ledger,
    ctx: AddVote,
    vote_type: VoteType,
    description: String,
    r: Result<Address, EVotingError>,
    i: int,
    a: Address,
)
    requires
        pre.wf(),
        vote_post(pre, post, ctx, vote_type, description, r),
        0 <= i < pre.proposals@.len(),
        pre.proposals@[i].0@ == ctx.proposal@,
        r == Ok::<Address, EVotingError>(a),
    ensures
        vote_key(pre.program_id@, ctx.user@, ctx.proposal@) is Some ==> {
            &&& post.proposals@.len() == pre.proposals@.len()
            &&& post.proposals@[i].1 == incremented(pre.proposals@[i].1, vote_type)
            &&& vote_type == VoteType::YesVote ==> post.proposals@[i].1.yes_votes
                == pre.proposals@[i].1.yes_votes + 1 && post.proposals@[i].1.no_votes
                == pre.proposals@[i].1.no_votes
            &&& vote_type == VoteType::NoVote ==> post.proposals@[i].1.no_votes
                == pre.proposals@[i].1.no_votes + 1 && post.proposals@[i].1.yes_votes
                == pre.proposals@[i].1.yes_votes
        },
{
    assert(vote_post_at(pre, post, i, ctx, vote_type, description, r));
}

/// Voting on a proposal whose session is closed fails with
/// `VotingSessionIsClosed` and changes nothing, regardless of the voter and
/// of the choice.
pub proof fn lemma_closed_session_rejects(
    pre: Ledger,
    post: Ledger,
    ctx: AddVote,
    vote_type: VoteType,
    description: String,
    r: Result<Address, EVotingError>,
    i: int,
)
    requires
        pre.wf(),
        vote_post(pre, post, ctx, vote_type, description, r),
        0 <= i < pre.proposals@.len(),
        pre.proposals@[i].0@ == ctx.proposal@,
        !pre.proposals@[i].1.ongoing,
    ensures
        r == Err::<Address, EVotingError>(EVotingError::VotingSessionIsClosed),
        post == pre,
{
    assert(vote_post_at(pre, post, i, ctx, vote_type, description, r));
}

/// A creation whose description is within the byte cap succeeds whenever the
/// derived key exists and is still free, and the stored description
/// round-trips exactly: the new record holds it verbatim, with zero tallies,
/// an ongoing session and the creator as owner.
pub proof fn lemma_create_in_cap_succeeds(
    pre: Ledger,
    post: Ledger,
    ctx: CreateProposal,
    description: String,
    r: Result<Address, EVotingError>,
)
    requires
        create_post(pre, post, ctx, description, r),
        description_byte_len(description) <= DESCRIPTION_MAXIMUM_LENGTH,
    ensures
        proposal_key(pre.program_id@, ctx.user@, ctx.discriminator) matches Some(q) ==> !has_key(
            pre.proposals@,
            q.0,
        ) ==> {
            &&& r is Ok
            &&& post.proposals@.len() == pre.proposals@.len() + 1
            &&& post.proposals@.last().0@ == q.0
            &&& post.proposals@.last().1.description == description
            &&& post.proposals@.last().1.yes_votes == 0
            &&& post.proposals@.last().1.no_votes == 0
            &&& post.proposals@.last().1.ongoing
            &&& post.proposals@.last().1.owner == ctx.user
            &&& post.votes == pre.votes
        },
{
}

/// A creation whose description exceeds the byte cap fails with
/// `DescriptionTooLong` and persists nothing.
pub proof fn lemma_create_over_cap_fails(
    pre: Ledger,
    post: Ledger,
    ctx: CreateProposal,
    description: String,
    r: Result<Address, EVotingError>,
)
    requires
        create_post(pre, post, ctx, description, r),
        description_byte_len(description) > DESCRIPTION_MAXIMUM_LENGTH,
    ensures
        r == Err::<Address, EVotingError>(EVotingError::DescriptionTooLong),
        post == pre,
{
}

} // verus!
