//! Deterministic storage-address derivation.
//!
//! Every record of the ledger lives at an address computed as a pure function
//! of a fixed domain-separation tag and the keys that identify the record, so
//! any client can recompute the address without a lookup index, and two
//! records with the same identity would collide at the same address.

use vstd::prelude::*;

verus! {

/// A storage address: 32 bytes, the size of an account key.
#[derive(Clone, Copy, Debug, PartialEq, Eq)]
pub struct Address(pub [u8; 32]);

impl View for Address {
    type V = Seq<u8>;

    open spec fn view(&self) -> Seq<u8> {
        self.0@
    }
}

/// Whether two addresses hold the same bytes.
pub fn addr_eq(a: &Address, b: &Address) -> (r: bool)
    ensures
        r <==> a@ == b@,
{
    let mut i: usize = 0;
    while i < 32
        invariant
            i <= 32,
            forall|j: int| 0 <= j < i ==> a.0@[j] == b.0@[j],
        decreases 32 - i,
    {
        if a.0[i] != b.0[i] {
            return false;
        }
        i = i + 1;
    }
    proof {
        assert(a@ =~= b@);
    }
    true
}

/// The bytes of an address as a fresh vector.
pub fn addr_bytes(a: &Address) -> (r: Vec<u8>)
    ensures
        r@ == a@,
{
    let mut r: Vec<u8> = Vec::new();
    let mut i: usize = 0;
    while i < 32
        invariant
            i <= 32,
            r@.len() == i,
            forall|j: int| 0 <= j < i ==> r@[j] == a.0@[j],
        decreases 32 - i,
    {
        r.push(a.0[i]);
        i = i + 1;
    }
    proof {
        assert(r@ =~= a@);
    }
    r
}

/// The derived address and bump seed that the program-address search returns
/// for three seed slices and a program id; the result is a function of those
/// arguments alone, or `None` in the statistically improbable event that no
/// bump seed yields a valid address.
pub uninterp spec fn pda_of(seeds: Seq<Seq<u8>>, program_id: Seq<u8>) -> Option<(Seq<u8>, u8)>;

/// Relies on `Pubkey::try_find_program_address` of anchor_lang (solana-address
/// underneath): a deterministic search over bump seeds that hashes the seed
/// slices, the program id and a fixed marker with sha256, so the result
/// depends on the seeds and the program id alone; it returns `None` only when
/// no bump seed yields an address off the ed25519 curve.
#[verifier::external_body]
fn find_program_address3(s0: &Vec<u8>, s1: &Vec<u8>, s2: &Vec<u8>, program_id: &Address) -> (r:
    Option<(Address, u8)>)
    ensures
        r is Some <==> pda_of(seq![s0@, s1@, s2@], program_id@) is Some,
        r matches Some(p) ==> pda_of(seq![s0@, s1@, s2@], program_id@) matches Some(q) && p.0@
            == q.0 && p.1 == q.1,
{
    let seeds: [&[u8]; 3] = [s0.as_slice(), s1.as_slice(), s2.as_slice()];
    let pid = anchor_lang::prelude::Pubkey::new_from_array(program_id.0);
    match anchor_lang::prelude::Pubkey::try_find_program_address(&seeds, &pid) {
        Some((key, bump)) => Some((Address(key.to_bytes()), bump)),
        None => None,
    }
}

/// The domain-separation tag of proposal records: the bytes of
/// "evoting_proposal_seed".
pub open spec fn proposal_tag() -> Seq<u8> {
    seq![
        101u8, 118u8, 111u8, 116u8, 105u8, 110u8, 103u8, 95u8, 112u8, 114u8, 111u8, 112u8, 111u8,
        115u8, 97u8, 108u8, 95u8, 115u8, 101u8, 101u8, 100u8,
    ]
}

/// The domain-separation tag of vote records: the bytes of
/// "evoting_vote_seed".
pub open spec fn vote_tag() -> Seq<u8> {
    seq![
        101u8, 118u8, 111u8, 116u8, 105u8, 110u8, 103u8, 95u8, 118u8, 111u8, 116u8, 101u8, 95u8,
        115u8, 101u8, 101u8, 100u8,
    ]
}

fn proposal_tag_bytes() -> (r: Vec<u8>)
    ensures
        r@ == proposal_tag(),
{
    let r: Vec<u8> = vec![
        101u8, 118u8, 111u8, 116u8, 105u8, 110u8, 103u8, 95u8, 112u8, 114u8, 111u8, 112u8, 111u8,
        115u8, 97u8, 108u8, 95u8, 115u8, 101u8, 101u8, 100u8,
    ];
    proof {
        assert(r@ =~= proposal_tag());
    }
    r
}

fn vote_tag_bytes() -> (r: Vec<u8>)
    ensures
        r@ == vote_tag(),
{
    let r: Vec<u8> = vec![
        101u8, 118u8, 111u8, 116u8, 105u8, 110u8, 103u8, 95u8, 118u8, 111u8, 116u8, 101u8, 95u8,
        115u8, 101u8, 101u8, 100u8,
    ];
    proof {
        assert(r@ =~= vote_tag());
    }
    r
}

/// The seed slices of a proposal's address: the creator's chosen
/// discriminator in little-endian bytes, the proposal tag, and the creator's
/// key. Keying by a discriminator rather than by the description leaves a
/// creator free to reuse a title under a fresh discriminator.
pub open spec fn proposal_seed_parts(creator: Seq<u8>, discriminator: u64) -> Seq<Seq<u8>> {
    seq![vstd::bytes::spec_u64_to_le_bytes(discriminator), proposal_tag(), creator]
}

/// The derived key and bump of the proposal identified by a creator and a
/// discriminator.
pub open spec fn proposal_key(program_id: Seq<u8>, creator: Seq<u8>, discriminator: u64) -> Option<
    (Seq<u8>, u8),
> {
    pda_of(proposal_seed_parts(creator, discriminator), program_id)
}

/// The seed slices of a vote's address: the vote tag, the voter's key and the
/// proposal's address, so one voter gets exactly one slot per proposal.
pub open spec fn vote_seed_parts(voter: Seq<u8>, proposal: Seq<u8>) -> Seq<Seq<u8>> {
    seq![vote_tag(), voter, proposal]
}

/// The derived key and bump of the vote cast by a voter on a proposal.
pub open spec fn vote_key(program_id: Seq<u8>, voter: Seq<u8>, proposal: Seq<u8>) -> Option<
    (Seq<u8>, u8),
> {
    pda_of(vote_seed_parts(voter, proposal), program_id)
}

/// Derive the address and bump of the proposal identified by `creator` and
/// `discriminator`.
pub fn derive_proposal_address(program_id: &Address, creator: &Address, discriminator: u64) -> (r:
    Option<(Address, u8)>)
    ensures
        r is Some <==> proposal_key(program_id@, creator@, discriminator) is Some,
        r matches Some(p) ==> proposal_key(program_id@, creator@, discriminator) matches Some(q)
            && p.0@ == q.0 && p.1 == q.1,
{
    let disc = vstd::bytes::u64_to_le_bytes(discriminator);
    let tag = proposal_tag_bytes();
    let creator_bytes = addr_bytes(creator);
    find_program_address3(&disc, &tag, &creator_bytes, program_id)
}

/// Derive the address and bump of the vote cast by `voter` on the proposal at
/// `proposal`.
pub fn derive_vote_address(program_id: &Address, voter: &Address, proposal: &Address) -> (r: Option<
    (Address, u8),
>)
    ensures
        r is Some <==> vote_key(program_id@, voter@, proposal@) is Some,
        r matches Some(p) ==> vote_key(program_id@, voter@, proposal@) matches Some(q) && p.0@
            == q.0 && p.1 == q.1,
{
    let tag = vote_tag_bytes();
    let voter_bytes = addr_bytes(voter);
    let proposal_bytes = addr_bytes(proposal);
    find_program_address3(&tag, &voter_bytes, &proposal_bytes, program_id)
}

} // verus!
