//! Deterministic addressing of records.
//!
//! No record's address is chosen. Each is derived by the runtime from a list of seeds and
//! the address of the program, so that whoever knows the seeds can compute it again.

use vstd::prelude::*;
use vstd::std_specs::cmp::PartialEqSpecImpl;
use vstd::string::StringSliceAdditionalSpecFns;
use crate::constants::{ASSOCIATED_TOKEN_PROGRAM_ID, COUNTER_SEED, ID, MINT_SEED, TOKEN_PROGRAM_ID};

verus! {

/// A 32-byte account address.
#[derive(Clone, Copy, Debug)]
pub struct Address {
    pub bytes: [u8; 32],
}

impl View for Address {
    type V = Seq<u8>;

    open spec fn view(&self) -> Seq<u8> {
        self.bytes@
    }
}

impl PartialEq for Address {
    fn eq(&self, other: &Address) -> (res: bool) {
        let mut i: usize = 0;
        while i < 32
            invariant
                i <= 32,
                forall|j: int| 0 <= j < i ==> self.bytes[j] == other.bytes[j],
            decreases 32 - i,
        {
            if self.bytes[i] != other.bytes[i] {
                return false;
            }
            i += 1;
        }
        assert(self.bytes@ =~= other.bytes@);
        true
    }
}

impl PartialEqSpecImpl for Address {
    open spec fn obeys_eq_spec() -> bool {
        true
    }

    open spec fn eq_spec(&self, other: &Address) -> bool {
        self.bytes@ == other.bytes@
    }
}

impl Eq for Address {}

impl Address {
    /// The address made of 32 zero bytes, which an empty record holds.
    pub fn zero() -> (res: Address)
        ensures
            res@ == Seq::new(32, |i: int| 0u8),
    {
        let res = Address { bytes: [0u8; 32] };
        assert(res@ =~= Seq::new(32, |i: int| 0u8));
        res
    }

    /// The bytes of the address, as a seed.
    pub fn to_seed(&self) -> (res: Vec<u8>)
        ensures
            res@ == self@,
    {
        let mut res: Vec<u8> = Vec::new();
        let mut i: usize = 0;
        while i < 32
            invariant
                i <= 32,
                res@ == self@.subrange(0, i as int),
            decreases 32 - i,
        {
            res.push(self.bytes[i]);
            assert(res@ =~= self@.subrange(0, i + 1));
            i += 1;
        }
        assert(self@.subrange(0, 32) =~= self@);
        res
    }
}

/// Two addresses with the same bytes are the same address.
pub proof fn lemma_address_by_bytes(a: Address, b: Address)
    ensures
        a@ == b@ <==> a == b,
{
    if a@ == b@ {
        assert(a.bytes =~= b.bytes);
    }
}

/// The address of this program.
pub fn id() -> (res: Address)
    ensures
        res@ == ID@,
{
    Address { bytes: ID }
}

/// The address and the bump seed that the runtime derives for a list of seeds under a
/// program, or `None` where it derives none.
pub uninterp spec fn program_address(seeds: Seq<Seq<u8>>, program_id: Seq<u8>) -> Option<(Seq<u8>, u8)>;

/// What a derivation found, by the bytes of the address.
pub open spec fn found(res: Option<(Address, u8)>) -> Option<(Seq<u8>, u8)> {
    match res {
        Some((address, bump)) => Some((address@, bump)),
        None => None,
    }
}

/// Calls `Pubkey::try_find_program_address` of the runtime's SDK. It hashes the seeds, a
/// bump seed and the program id, and tries bump seeds from 255 down until the hash is no
/// point of the curve; it returns `None` where no bump seed does, where a seed has more
/// than 32 bytes and where there are more than 15 seeds. The result depends on the seeds
/// and the program id alone: the contract gives it the name `program_address` and claims
/// nothing more of it.
#[verifier::external_body]
pub(crate) fn find_program_address(seeds: &Vec<Vec<u8>>, program_id: &Address) -> (res: Option<(Address, u8)>)
    ensures
        found(res) == program_address(seeds.deep_view(), program_id@),
{
    let slices: Vec<&[u8]> = seeds.iter().map(|seed| seed.as_slice()).collect();
    let program = anchor_lang::prelude::Pubkey::new_from_array(program_id.bytes);
    anchor_lang::prelude::Pubkey::try_find_program_address(&slices, &program)
        .map(|(key, bump)| (Address { bytes: key.to_bytes() }, bump))
}

/// Seeds of a review: the bytes of its title, then the address of its author.
pub open spec fn movie_review_seeds(title: Seq<u8>, author: Seq<u8>) -> Seq<Seq<u8>> {
    seq![title, author]
}

/// Seeds of the comment counter of a review: `COUNTER_SEED`, then the review's address.
pub open spec fn comment_counter_seeds(review: Seq<u8>) -> Seq<Seq<u8>> {
    seq![COUNTER_SEED@, review]
}

/// Seeds of a comment: the review's address, then the comment's number as eight bytes,
/// lowest first.
pub open spec fn comment_seeds(review: Seq<u8>, count: u64) -> Seq<Seq<u8>> {
    seq![review, vstd::bytes::spec_u64_to_le_bytes(count)]
}

/// Seeds of the token mint: `MINT_SEED`.
pub open spec fn mint_seeds() -> Seq<Seq<u8>> {
    seq![MINT_SEED@]
}

/// Seeds with which the mint signs: `MINT_SEED`, then its bump seed.
pub open spec fn mint_signer_seeds(bump: u8) -> Seq<Seq<u8>> {
    seq![MINT_SEED@, seq![bump]]
}

/// Seeds of a wallet's token account for a mint: the wallet, the token program, the mint.
pub open spec fn associated_token_seeds(wallet: Seq<u8>, mint: Seq<u8>) -> Seq<Seq<u8>> {
    seq![wallet, TOKEN_PROGRAM_ID@, mint]
}

/// The bytes of `MINT_SEED`.
fn mint_seed() -> (res: Vec<u8>)
    ensures
        res@ == MINT_SEED@,
{
    let mut res: Vec<u8> = Vec::new();
    let mut i: usize = 0;
    while i < 4
        invariant
            i <= 4,
            res@ == MINT_SEED@.subrange(0, i as int),
        decreases 4 - i,
    {
        res.push(MINT_SEED[i]);
        assert(res@ =~= MINT_SEED@.subrange(0, i + 1));
        i += 1;
    }
    assert(MINT_SEED@.subrange(0, 4) =~= MINT_SEED@);
    res
}

/// The seeds of the review of `title` by the author at `author`.
pub fn movie_review_seeds_of(title: &str, author: &Address) -> (res: Vec<Vec<u8>>)
    ensures
        res.deep_view() == movie_review_seeds(title.spec_bytes(), author@),
{
    let mut seeds: Vec<Vec<u8>> = Vec::new();
    seeds.push(title.as_bytes_vec());
    seeds.push(author.to_seed());
    assert(seeds.deep_view() =~~= movie_review_seeds(title.spec_bytes(), author@));
    seeds
}

/// The seeds of the comment counter of the review at `review`.
pub fn comment_counter_seeds_of(review: &Address) -> (res: Vec<Vec<u8>>)
    ensures
        res.deep_view() == comment_counter_seeds(review@),
{
    let mut first: Vec<u8> = Vec::new();
    let mut i: usize = 0;
    while i < 7
        invariant
            i <= 7,
            first@ == COUNTER_SEED@.subrange(0, i as int),
        decreases 7 - i,
    {
        first.push(COUNTER_SEED[i]);
        assert(first@ =~= COUNTER_SEED@.subrange(0, i + 1));
        i += 1;
    }
    assert(COUNTER_SEED@.subrange(0, 7) =~= COUNTER_SEED@);
    let mut seeds: Vec<Vec<u8>> = Vec::new();
    seeds.push(first);
    seeds.push(review.to_seed());
    assert(seeds.deep_view() =~~= comment_counter_seeds(review@));
    seeds
}

/// The seeds of comment number `count` on the review at `review`.
pub fn comment_seeds_of(review: &Address, count: u64) -> (res: Vec<Vec<u8>>)
    ensures
        res.deep_view() == comment_seeds(review@, count),
{
    let mut seeds: Vec<Vec<u8>> = Vec::new();
    seeds.push(review.to_seed());
    seeds.push(vstd::bytes::u64_to_le_bytes(count));
    assert(seeds.deep_view() =~~= comment_seeds(review@, count));
    seeds
}

/// The seeds of the token mint.
pub fn mint_seeds_of() -> (res: Vec<Vec<u8>>)
    ensures
        res.deep_view() == mint_seeds(),
{
    let mut seeds: Vec<Vec<u8>> = Vec::new();
    seeds.push(mint_seed());
    assert(seeds.deep_view() =~~= mint_seeds());
    seeds
}

/// The seeds with which the mint signs, for the host to check the signature.
pub fn mint_signer_seeds_of(bump: u8) -> (res: Vec<Vec<u8>>)
    ensures
        res.deep_view() == mint_signer_seeds(bump),
{
    let mut seeds: Vec<Vec<u8>> = Vec::new();
    seeds.push(mint_seed());
    let mut last: Vec<u8> = Vec::new();
    last.push(bump);
    assert(last@ =~= seq![bump]);
    seeds.push(last);
    assert(seeds.deep_view() =~~= mint_signer_seeds(bump));
    seeds
}

/// The seeds of the token account of `wallet` for `mint`.
pub fn associated_token_seeds_of(wallet: &Address, mint: &Address) -> (res: Vec<Vec<u8>>)
    ensures
        res.deep_view() == associated_token_seeds(wallet@, mint@),
{
    let token_program = Address { bytes: TOKEN_PROGRAM_ID };
    let mut seeds: Vec<Vec<u8>> = Vec::new();
    seeds.push(wallet.to_seed());
    seeds.push(token_program.to_seed());
    seeds.push(mint.to_seed());
    assert(seeds.deep_view() =~~= associated_token_seeds(wallet@, mint@));
    seeds
}

/// The address of the review of `title` by the author at `author`, and its bump seed.
pub fn movie_review_address(program_id: &Address, title: &str, author: &Address) -> (res: Option<(Address, u8)>)
    ensures
        found(res) == program_address(movie_review_seeds(title.spec_bytes(), author@), program_id@),
{
    find_program_address(&movie_review_seeds_of(title, author), program_id)
}

/// The address of the comment counter of the review at `review`, and its bump seed.
pub fn comment_counter_address(program_id: &Address, review: &Address) -> (res: Option<(Address, u8)>)
    ensures
        found(res) == program_address(comment_counter_seeds(review@), program_id@),
{
    find_program_address(&comment_counter_seeds_of(review), program_id)
}

/// The address of comment number `count` on the review at `review`, and its bump seed.
pub fn comment_address(program_id: &Address, review: &Address, count: u64) -> (res: Option<(Address, u8)>)
    ensures
        found(res) == program_address(comment_seeds(review@, count), program_id@),
{
    find_program_address(&comment_seeds_of(review, count), program_id)
}

/// The address of the token mint, and its bump seed.
pub fn mint_address(program_id: &Address) -> (res: Option<(Address, u8)>)
    ensures
        found(res) == program_address(mint_seeds(), program_id@),
{
    find_program_address(&mint_seeds_of(), program_id)
}

/// The address alone of what a derivation found.
pub fn address_of(derived: Option<(Address, u8)>) -> (res: Option<Address>)
    ensures
        res == match derived {
            Some((address, _)) => Some(address),
            None => None,
        },
{
    match derived {
        Some((address, _)) => Some(address),
        None => None,
    }
}

/// The address of the token account of `wallet` for `mint`, which the associated token
/// account program derives from `associated_token_seeds`. It keeps no bump seed.
pub fn associated_token_address(wallet: &Address, mint: &Address) -> (res: Option<Address>)
    ensures
        match res {
            Some(address) => program_address(associated_token_seeds(wallet@, mint@), ASSOCIATED_TOKEN_PROGRAM_ID@)
                matches Some((bytes, _)) && bytes == address@,
            None => program_address(associated_token_seeds(wallet@, mint@), ASSOCIATED_TOKEN_PROGRAM_ID@) is None,
        },
{
    let program = Address { bytes: ASSOCIATED_TOKEN_PROGRAM_ID };
    address_of(find_program_address(&associated_token_seeds_of(wallet, mint), &program))
}

} // verus!
