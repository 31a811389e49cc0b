use vstd::prelude::*;
use vstd::string::StringSliceAdditionalSpecFns;

use crate::constants::{MINT_AUTHORITY, PDA_CHECK, VAULT};
use crate::state::Pubkey;

verus! {

/// The bytes of a bump seed, by `bytemuck::bytes_of`. For a `u8` that
/// function hands back the one byte the value occupies; the contract claims
/// no more than that.
#[verifier::external_body]
fn bump_bytes(bump: &u8) -> (r: &[u8])
    ensures
        r@ == seq![*bump],
{
    bytemuck::bytes_of(bump)
}

/// A copy of an address's bytes.
fn key_bytes(key: &Pubkey) -> (r: Vec<u8>)
    ensures
        r@ == key.bytes@,
{
    let mut v: Vec<u8> = Vec::new();
    let mut i: usize = 0;
    while i < 32
        invariant
            0 <= i <= 32,
            v@ == key.bytes@.take(i as int),
        decreases 32 - i,
    {
        v.push(key.bytes[i]);
        assert(key.bytes@.take(i + 1) == key.bytes@.take(i as int).push(key.bytes@[i as int]));
        i = i + 1;
    }
    assert(key.bytes@.take(32) == key.bytes@);
    v
}

/// The seeds with which a token's vault signs: the vault seed, the mint's
/// address and the vault's bump.
pub fn vault_signer_seeds(mint: &Pubkey, bump: u8) -> (r: Vec<Vec<u8>>)
    ensures
        r@.len() == 3,
        r@[0]@ == VAULT.spec_bytes(),
        r@[1]@ == mint.bytes@,
        r@[2]@ == seq![bump],
{
    let mut seeds: Vec<Vec<u8>> = Vec::new();
    seeds.push(vstd::slice::slice_to_vec(VAULT.as_bytes()));
    seeds.push(key_bytes(mint));
    seeds.push(vstd::slice::slice_to_vec(bump_bytes(&bump)));
    seeds
}

/// The seeds with which a buyer's marker account signs its creation: the
/// marker seed, the buyer's address, the mint's address and the bump.
pub fn buyer_marker_signer_seeds(buyer: &Pubkey, mint: &Pubkey, bump: u8) -> (r: Vec<Vec<u8>>)
    ensures
        r@.len() == 4,
        r@[0]@ == PDA_CHECK.spec_bytes(),
        r@[1]@ == buyer.bytes@,
        r@[2]@ == mint.bytes@,
        r@[3]@ == seq![bump],
{
    let mut seeds: Vec<Vec<u8>> = Vec::new();
    seeds.push(vstd::slice::slice_to_vec(PDA_CHECK.as_bytes()));
    seeds.push(key_bytes(buyer));
    seeds.push(key_bytes(mint));
    seeds.push(vstd::slice::slice_to_vec(bump_bytes(&bump)));
    seeds
}

/// The seeds with which the program's mint authority signs: its seed and
/// its bump.
pub fn mint_authority_signer_seeds(bump: u8) -> (r: Vec<Vec<u8>>)
    ensures
        r@.len() == 2,
        r@[0]@ == MINT_AUTHORITY.spec_bytes(),
        r@[1]@ == seq![bump],
{
    let mut seeds: Vec<Vec<u8>> = Vec::new();
    seeds.push(vstd::slice::slice_to_vec(MINT_AUTHORITY.as_bytes()));
    seeds.push(vstd::slice::slice_to_vec(bump_bytes(&bump)));
    seeds
}

} // verus!
