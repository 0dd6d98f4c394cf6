use vstd::prelude::*;
use vstd::bytes::{spec_u64_to_le_bytes, u64_to_le_bytes};
use crate::address::Address;

verus! {

/// The bytes of the token program's address.
pub const TOKEN_PROGRAM: [u8; 32] = [
    6, 221, 246, 225, 215, 101, 161, 147, 217, 203, 225, 70, 206, 235, 121, 172,
    28, 180, 133, 237, 95, 91, 55, 145, 58, 140, 245, 133, 126, 255, 0, 169,
];

/// The bytes of the associated-token program's address, under which the
/// canonical vault of an owner for an asset is derived.
pub const ASSOCIATED_TOKEN_PROGRAM: [u8; 32] = [
    140, 151, 37, 143, 78, 36, 137, 241, 187, 61, 16, 41, 20, 142, 13, 131,
    11, 90, 19, 153, 218, 255, 16, 132, 4, 142, 123, 216, 219, 233, 248, 89,
];

/// The address and bump seed that the ledger derives for `program` from
/// `seeds`, or `None` where it derives none.
pub uninterp spec fn program_address(program: Seq<u8>, seeds: Seq<Seq<u8>>) -> Option<(Seq<u8>, u8)>;

/// The seeds as sequences of bytes.
pub open spec fn seeds_view(seeds: Seq<Vec<u8>>) -> Seq<Seq<u8>> {
    seeds.map_values(|seed: Vec<u8>| seed@)
}

/// Calls `Pubkey::try_find_program_address` of `anchor_lang`. It hashes the
/// seeds, a bump seed and the program's address, trying the bump seeds from
/// 255 downwards, and returns the first hash that is no point of the curve,
/// with its bump seed; `None` where there is none or where the seeds are too
/// many or too long. The contract claims only that the result is a function
/// of the program's address and the seeds, which it names.
#[verifier::external_body]
fn try_find_program_address(program: &Address, seeds: &Vec<Vec<u8>>) -> (r: Option<(Address, u8)>)
    ensures
        match r {
            Some((address, bump)) => program_address(program@, seeds_view(seeds@)) == Some(
                (address@, bump),
            ),
            None => program_address(program@, seeds_view(seeds@)) is None,
        },
{
    let parts: Vec<&[u8]> = seeds.iter().map(|seed| seed.as_slice()).collect();
    let key = anchor_lang::prelude::Pubkey::new_from_array(program.bytes);
    match anchor_lang::prelude::Pubkey::try_find_program_address(&parts, &key) {
        Some((address, bump)) => Some((Address { bytes: address.to_bytes() }, bump)),
        None => None,
    }
}

/// The address derived for `program` from `seeds`, with its bump seed.
pub open spec fn derived(program: Address, seeds: Seq<Seq<u8>>) -> Option<(Address, u8)> {
    match program_address(program@, seeds) {
        Some((bytes, bump)) => Some((Address::from_seq(bytes), bump)),
        None => None,
    }
}

/// Derives the address for `program` from `seeds`.
fn derive(program: &Address, seeds: &Vec<Vec<u8>>) -> (r: Option<(Address, u8)>)
    ensures
        r == derived(*program, seeds_view(seeds@)),
{
    let found = try_find_program_address(program, seeds);
    proof {
        if let Some((address, _)) = found {
            address.lemma_from_seq();
        }
    }
    found
}

/// The namespace of control records: the bytes of `config`.
pub open spec fn control_tag() -> Seq<u8> {
    seq![99u8, 111u8, 110u8, 102u8, 105u8, 103u8]
}

/// The namespace of share mints: the bytes of `lp`.
pub open spec fn share_mint_tag() -> Seq<u8> {
    seq![108u8, 112u8]
}

/// The address of the token program.
pub open spec fn token_program() -> Address {
    Address { bytes: TOKEN_PROGRAM }
}

/// The address of the associated-token program.
pub open spec fn associated_token_program() -> Address {
    Address { bytes: ASSOCIATED_TOKEN_PROGRAM }
}

/// The address of the control record of the pool with seed `seed`, with its
/// bump seed: derived from the namespace of control records and the seed's
/// eight bytes, lowest first.
pub open spec fn control_address_of(program: Address, seed: u64) -> Option<(Address, u8)> {
    derived(program, seq![control_tag(), spec_u64_to_le_bytes(seed)])
}

/// The address of the share mint of the pool whose control record is at
/// `control`, with its bump seed.
pub open spec fn share_mint_address_of(program: Address, control: Address) -> Option<(Address, u8)> {
    derived(program, seq![share_mint_tag(), control@])
}

/// The address of the vault that holds `asset` for `owner`, with its bump
/// seed: the token programs' canonical account of that owner for that asset.
pub open spec fn vault_address_of(owner: Address, asset: Address) -> Option<(Address, u8)> {
    derived(associated_token_program(), seq![owner@, token_program()@, asset@])
}

/// Derives the address of the control record of the pool with seed `seed`.
pub fn control_address(program: &Address, seed: u64) -> (r: Option<(Address, u8)>)
    ensures
        r == control_address_of(*program, seed),
{
    let mut seeds: Vec<Vec<u8>> = Vec::new();
    seeds.push(vec![99u8, 111u8, 110u8, 102u8, 105u8, 103u8]);
    seeds.push(u64_to_le_bytes(seed));
    proof {
        assert(seeds@[0]@ =~= control_tag());
        assert(seeds_view(seeds@) =~= seq![control_tag(), spec_u64_to_le_bytes(seed)]);
    }
    derive(program, &seeds)
}

/// Derives the address of the share mint of the pool whose control record is
/// at `control`.
pub fn share_mint_address(program: &Address, control: &Address) -> (r: Option<(Address, u8)>)
    ensures
        r == share_mint_address_of(*program, *control),
{
    let mut seeds: Vec<Vec<u8>> = Vec::new();
    seeds.push(vec![108u8, 112u8]);
    seeds.push(control.to_vec());
    proof {
        assert(seeds@[0]@ =~= share_mint_tag());
        assert(seeds_view(seeds@) =~= seq![share_mint_tag(), control@]);
    }
    derive(program, &seeds)
}

/// Derives the address of the vault that holds `asset` for `owner`.
pub fn vault_address(owner: &Address, asset: &Address) -> (r: Option<(Address, u8)>)
    ensures
        r == vault_address_of(*owner, *asset),
{
    let token = Address::new(TOKEN_PROGRAM);
    let associated = Address::new(ASSOCIATED_TOKEN_PROGRAM);
    let mut seeds: Vec<Vec<u8>> = Vec::new();
    seeds.push(owner.to_vec());
    seeds.push(token.to_vec());
    seeds.push(asset.to_vec());
    proof {
        assert(seeds_view(seeds@) =~= seq![owner@, token_program()@, asset@]);
    }
    derive(&associated, &seeds)
}


/// The addresses of the four accounts of a pool.
#[derive(Clone, Copy, Debug, PartialEq, Eq)]
pub struct PoolAddresses {
    pub control: Address,
    pub share_mint: Address,
    pub vault_x: Address,
    pub vault_y: Address,
}

/// The addresses of the accounts of the pool of `program` with seed `seed`
/// that trades `mint_x` against `mint_y`: the control record from the seed,
/// the share mint and the two vaults from the control record. `None` where
/// one of them cannot be derived.
pub open spec fn pool_addresses_of(program: Address, seed: u64, mint_x: Address, mint_y: Address) -> Option<
    PoolAddresses,
> {
    match control_address_of(program, seed) {
        Some((control, _)) => match (
            share_mint_address_of(program, control),
            vault_address_of(control, mint_x),
            vault_address_of(control, mint_y),
        ) {
            (Some((share_mint, _)), Some((vault_x, _)), Some((vault_y, _))) => Some(
                PoolAddresses { control, share_mint, vault_x, vault_y },
            ),
            _ => None,
        },
        None => None,
    }
}

/// Derives the addresses of the accounts of a pool.
pub fn resolve_pool(program: &Address, seed: u64, mint_x: &Address, mint_y: &Address) -> (r: Option<
    PoolAddresses,
>)
    ensures
        r == pool_addresses_of(*program, seed, *mint_x, *mint_y),
{
    let control = match control_address(program, seed) {
        Some((control, _)) => control,
        None => {
            return None;
        },
    };
    let share_mint = match share_mint_address(program, &control) {
        Some((share_mint, _)) => share_mint,
        None => {
            return None;
        },
    };
    let vault_x = match vault_address(&control, mint_x) {
        Some((vault_x, _)) => vault_x,
        None => {
            return None;
        },
    };
    let vault_y = match vault_address(&control, mint_y) {
        Some((vault_y, _)) => vault_y,
        None => {
            return None;
        },
    };
    Some(PoolAddresses { control, share_mint, vault_x, vault_y })
}

} // verus!
