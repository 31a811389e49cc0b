use vstd::prelude::*;

verus! {

/// A 32-byte account address.
#[derive(Clone, Copy, Debug, PartialEq, Eq)]
pub struct Pubkey {
    pub bytes: [u8; 32],
}

impl Pubkey {
    /// The all-zero address, which a freshly created account holds.
    pub fn zeroed() -> (r: Pubkey)
        ensures
            forall|i: int| 0 <= i < 32 ==> r.bytes[i] == 0,
    {
        Pubkey { bytes: [0u8; 32] }
    }

    /// Byte-wise equality of two addresses.
    pub fn key_eq(&self, other: &Pubkey) -> (r: bool)
        ensures
            r == (*self == *other),
    {
        broadcast use vstd::array::group_array_axioms;

        let mut i: usize = 0;
        while i < 32
            invariant
                0 <= i <= 32,
                forall|j: int| 0 <= j < i ==> self.bytes[j] == other.bytes[j],
            decreases 32 - i,
        {
            if self.bytes[i] != other.bytes[i] {
                return false;
            }
            i = i + 1;
        }
        assert(self.bytes =~= other.bytes);
        true
    }
}

/// Program-wide settings.
#[derive(Clone, Copy, Debug, PartialEq, Eq)]
pub struct Config {
    pub initial_token_reserve: u64,
    pub decimal: u8,
    pub operator: Pubkey,
    pub operator_lp: Pubkey,
    pub fund: Pubkey,
    pub fee_receiver: Pubkey,
    /// Platform fee rate in basis points.
    pub fee_platform: u16,
    /// Fund fee rate in basis points.
    pub fee_fund: u16,
}

impl Config {
    /// Space reserved for a configuration account.
    pub const LEN: usize = 8 + 1 * 1 + 2 * 2 + 1 * 8 + 4 * 32;
}

/// What one seller has received of one token.
#[derive(Clone, Copy, Debug, PartialEq, Eq)]
pub struct Holder {
    pub mint: Pubkey,
    pub holder: Pubkey,
    pub amount_token_received: u64,
}

impl Holder {
    /// Space reserved for a holder account.
    pub const LEN: usize = 8 + 1 * 8 + 2 * 32;
}

/// The trading state of one token.
#[derive(Clone, Copy, Debug, PartialEq, Eq)]
pub struct Vault {
    pub token_supply: u64,
    pub decimal: u8,
    pub initial_token_reserve: u64,
    /// Lamports the vault must collect before trading completes.
    pub sol_target: u128,
    /// Most base units a single buyer may hold (creator excepted).
    pub max_token_buy: u64,
    pub mint: Pubkey,
    pub creator: Pubkey,
    /// Whether the creator has taken the creator's share.
    pub creator_buy: bool,
    pub amount_token_received_per_slot: u64,
    /// Lamports per 10^6 base units of the token.
    pub price: u64,
    /// Whether the target has been reached.
    pub completed: bool,
}

impl Vault {
    /// Space reserved for a vault account.
    pub const LEN: usize = 8 + 2 * 1 + 1 + 5 * 8 + 16 + 2 * 32;
}

} // verus!
