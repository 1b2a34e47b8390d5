//! Account identities and the deterministic derivation of the program's
//! storage addresses from a role tag and, for per-user records, the owner.
use vstd::prelude::*;
use crate::error::MultiHubSwapError;

verus! {

/// A 32-byte account identity (a public key or a derived address).
#[derive(Clone, Copy, Debug, PartialEq, Eq)]
pub struct Address {
    pub bytes: [u8; 32],
}

impl View for Address {
    type V = Seq<u8>;

    open spec fn view(&self) -> Seq<u8> {
        self.bytes@
    }
}

impl Address {
    pub fn new_from_array(bytes: [u8; 32]) -> (r: Address)
        ensures
            r@ == bytes@,
    {
        Address { bytes }
    }

    /// The all-zero identity.
    pub fn zero() -> (r: Address)
        ensures
            r@ == Seq::new(32, |i: int| 0u8),
    {
        let r = Address { bytes: [0u8; 32] };
        assert(r@ =~= Seq::new(32, |i: int| 0u8));
        r
    }

    /// Byte-for-byte comparison of two identities.
    pub fn equals(&self, other: &Address) -> (r: bool)
        ensures
            r == (self@ == other@),
    {
        let mut i: usize = 0;
        while i < 32
            invariant
                i <= 32,
                forall|j: int| 0 <= j < i ==> self.bytes@[j] == other.bytes@[j],
            decreases 32 - i,
        {
            if self.bytes[i] != other.bytes[i] {
                return false;
            }
            i += 1;
        }
        assert(self@ =~= other@);
        true
    }
}

/// The seed of the program state record: `state`.
pub open spec fn state_seed() -> Seq<u8> {
    seq![115u8, 116u8, 97u8, 116u8, 101u8]
}

/// The seed of the program's signing authority: `authority`.
pub open spec fn authority_seed() -> Seq<u8> {
    seq![97u8, 117u8, 116u8, 104u8, 111u8, 114u8, 105u8, 116u8, 121u8]
}

/// The seed prefix of a user's contribution ledger: `liq`.
pub open spec fn ledger_seed() -> Seq<u8> {
    seq![108u8, 105u8, 113u8]
}

/// The seed prefix of the program's vault token account for a mint: `vault`.
pub open spec fn vault_seed() -> Seq<u8> {
    seq![118u8, 97u8, 117u8, 108u8, 116u8]
}

/// The seed prefix of the program's liquidity token account for a mint: `liquidity`.
pub open spec fn liquidity_token_seed() -> Seq<u8> {
    seq![108u8, 105u8, 113u8, 117u8, 105u8, 100u8, 105u8, 116u8, 121u8]
}

/// The seeds from which the vault token account for `mint` is derived.
pub open spec fn vault_seeds(mint: Seq<u8>) -> Seq<Seq<u8>> {
    seq![vault_seed(), mint]
}

/// The seeds from which the liquidity token account for `mint` is derived.
pub open spec fn liquidity_token_seeds(mint: Seq<u8>) -> Seq<Seq<u8>> {
    seq![liquidity_token_seed(), mint]
}

/// The seeds from which the state record's address is derived.
pub open spec fn state_seeds() -> Seq<Seq<u8>> {
    seq![state_seed()]
}

/// The seeds from which the program authority's address is derived.
pub open spec fn authority_seeds() -> Seq<Seq<u8>> {
    seq![authority_seed()]
}

/// The seeds from which `owner`'s contribution ledger address is derived.
pub open spec fn ledger_seeds(owner: Seq<u8>) -> Seq<Seq<u8>> {
    seq![ledger_seed(), owner]
}

/// The derived address and bump seed for `seeds` under `program_id`, or `None`
/// where no bump seed yields an address off the curve.
pub uninterp spec fn program_address_of(seeds: Seq<Seq<u8>>, program_id: Seq<u8>) -> Option<
    (Seq<u8>, u8),
>;

pub open spec fn seeds_view(seeds: Seq<Vec<u8>>) -> Seq<Seq<u8>> {
    seeds.map_values(|s: Vec<u8>| s@)
}

pub open spec fn found_view(r: Option<(Address, u8)>) -> Option<(Seq<u8>, u8)> {
    match r {
        Some(p) => Some((p.0@, p.1)),
        None => None,
    }
}

/// Relies on `solana_program::pubkey::Pubkey::try_find_program_address`: a
/// deterministic search (SHA-256 of the seeds, a bump byte and the program id)
/// for the first bump from 255 down whose hash is off the curve, `None` when
/// there is none or the seeds break its length limits.
#[verifier::external_body]
fn try_find_program_address(seeds: &Vec<Vec<u8>>, program_id: &Address) -> (r: Option<
    (Address, u8),
>)
    ensures
        found_view(r) == program_address_of(seeds_view(seeds@), program_id@),
{
    let s: Vec<&[u8]> = seeds.iter().map(|x| x.as_slice()).collect();
    let id = solana_program::pubkey::Pubkey::new_from_array(program_id.bytes);
    solana_program::pubkey::Pubkey::try_find_program_address(&s, &id).map(
        |(k, b)| (Address { bytes: k.to_bytes() }, b),
    )
}

fn state_seed_bytes() -> (r: Vec<u8>)
    ensures
        r@ == state_seed(),
{
    let r = vec![115u8, 116u8, 97u8, 116u8, 101u8];
    assert(r@ =~= state_seed());
    r
}

fn authority_seed_bytes() -> (r: Vec<u8>)
    ensures
        r@ == authority_seed(),
{
    let r = vec![97u8, 117u8, 116u8, 104u8, 111u8, 114u8, 105u8, 116u8, 121u8];
    assert(r@ =~= authority_seed());
    r
}

fn ledger_seed_bytes() -> (r: Vec<u8>)
    ensures
        r@ == ledger_seed(),
{
    let r = vec![108u8, 105u8, 113u8];
    assert(r@ =~= ledger_seed());
    r
}

fn vault_seed_bytes() -> (r: Vec<u8>)
    ensures
        r@ == vault_seed(),
{
    let r = vec![118u8, 97u8, 117u8, 108u8, 116u8];
    assert(r@ =~= vault_seed());
    r
}

fn liquidity_token_seed_bytes() -> (r: Vec<u8>)
    ensures
        r@ == liquidity_token_seed(),
{
    let r = vec![108u8, 105u8, 113u8, 117u8, 105u8, 100u8, 105u8, 116u8, 121u8];
    assert(r@ =~= liquidity_token_seed());
    r
}

fn owner_seed_bytes(owner: &Address) -> (r: Vec<u8>)
    ensures
        r@ == owner@,
{
    let mut r: Vec<u8> = Vec::new();
    let mut i: usize = 0;
    while i < 32
        invariant
            i <= 32,
            r@ == owner@.subrange(0, i as int),
        decreases 32 - i,
    {
        r.push(owner.bytes[i]);
        assert(r@ =~= owner@.subrange(0, i + 1));
        i += 1;
    }
    assert(owner@.subrange(0, 32) =~= owner@);
    r
}

/// The address of the program state record and its bump seed.
pub fn find_program_state_address(program_id: &Address) -> (r: Option<(Address, u8)>)
    ensures
        found_view(r) == program_address_of(state_seeds(), program_id@),
{
    let seeds = vec![state_seed_bytes()];
    assert(seeds_view(seeds@) =~= state_seeds());
    try_find_program_address(&seeds, program_id)
}

/// The address of the program's signing authority and its bump seed.
pub fn find_program_authority_address(program_id: &Address) -> (r: Option<(Address, u8)>)
    ensures
        found_view(r) == program_address_of(authority_seeds(), program_id@),
{
    let seeds = vec![authority_seed_bytes()];
    assert(seeds_view(seeds@) =~= authority_seeds());
    try_find_program_address(&seeds, program_id)
}

/// The address of `user`'s contribution ledger and its bump seed.
pub fn find_liquidity_contribution_address(user: &Address, program_id: &Address) -> (r: Option<
    (Address, u8),
>)
    ensures
        found_view(r) == program_address_of(ledger_seeds(user@), program_id@),
{
    let seeds = vec![ledger_seed_bytes(), owner_seed_bytes(user)];
    assert(seeds_view(seeds@) =~= ledger_seeds(user@));
    try_find_program_address(&seeds, program_id)
}

/// The address of the program's vault token account for `mint` and its bump seed.
pub fn find_vault_token_address(mint: &Address, program_id: &Address) -> (r: Option<(Address, u8)>)
    ensures
        found_view(r) == program_address_of(vault_seeds(mint@), program_id@),
{
    let seeds = vec![vault_seed_bytes(), owner_seed_bytes(mint)];
    assert(seeds_view(seeds@) =~= vault_seeds(mint@));
    try_find_program_address(&seeds, program_id)
}

/// The address of the program's liquidity token account for `mint` and its bump seed.
pub fn find_liquidity_token_address(mint: &Address, program_id: &Address) -> (r: Option<
    (Address, u8),
>)
    ensures
        found_view(r) == program_address_of(liquidity_token_seeds(mint@), program_id@),
{
    let seeds = vec![liquidity_token_seed_bytes(), owner_seed_bytes(mint)];
    assert(seeds_view(seeds@) =~= liquidity_token_seeds(mint@));
    try_find_program_address(&seeds, program_id)
}

/// The bump seed of `found`, or `AddressDerivationFailed` where nothing was found.
pub fn bump_of(found: Option<(Address, u8)>) -> (r: Result<u8, MultiHubSwapError>)
    ensures
        match found_view(found) {
            Some(p) => r == Ok::<u8, MultiHubSwapError>(p.1),
            None => r == Err::<u8, MultiHubSwapError>(MultiHubSwapError::AddressDerivationFailed),
        },
{
    match found {
        Some(p) => Ok(p.1),
        None => Err(MultiHubSwapError::AddressDerivationFailed),
    }
}

/// The bump seed of `user`'s contribution ledger address.
pub fn find_liquidity_contribution_bump(program_id: &Address, user: &Address) -> (r: Result<
    u8,
    MultiHubSwapError,
>)
    ensures
        match program_address_of(ledger_seeds(user@), program_id@) {
            Some(p) => r == Ok::<u8, MultiHubSwapError>(p.1),
            None => r == Err::<u8, MultiHubSwapError>(MultiHubSwapError::AddressDerivationFailed),
        },
{
    bump_of(find_liquidity_contribution_address(user, program_id))
}

/// The bump seed of the program authority's address.
pub fn find_authority_bump(program_id: &Address) -> (r: Result<u8, MultiHubSwapError>)
    ensures
        match program_address_of(authority_seeds(), program_id@) {
            Some(p) => r == Ok::<u8, MultiHubSwapError>(p.1),
            None => r == Err::<u8, MultiHubSwapError>(MultiHubSwapError::AddressDerivationFailed),
        },
{
    bump_of(find_program_authority_address(program_id))
}

/// Checks a caller-supplied account against the address derived for its role:
/// the bump seed where they are the same, `InvalidAccountData` otherwise.
pub fn check_derived_address(found: Option<(Address, u8)>, supplied: &Address) -> (r: Result<
    u8,
    MultiHubSwapError,
>)
    ensures
        r == match found_view(found) {
            Some(p) => if p.0 == supplied@ {
                Ok::<u8, MultiHubSwapError>(p.1)
            } else {
                Err(MultiHubSwapError::InvalidAccountData)
            },
            None => Err(MultiHubSwapError::InvalidAccountData),
        },
{
    match found {
        Some(p) => {
            if p.0.equals(supplied) {
                Ok(p.1)
            } else {
                Err(MultiHubSwapError::InvalidAccountData)
            }
        },
        None => Err(MultiHubSwapError::InvalidAccountData),
    }
}

} // verus!
