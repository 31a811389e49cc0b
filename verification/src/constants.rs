use vstd::prelude::*;

verus! {

/// Seed of the program-wide configuration account.
pub const CONFIG_SEED: &'static str = "jeets_config";

/// Seed of a token's vault account.
pub const VAULT: &'static str = "vault";

/// Seed of a vault's token account.
pub const ATA_VAULT: &'static str = "associate";

/// Seed of the program's mint authority.
pub const MINT_AUTHORITY: &'static str = "mint_authority";

/// Seed of the per-buyer marker account.
pub const PDA_CHECK: &'static str = "pda_buyer";

/// Basis-point denominator used for fee rates (10000 = 100%).
pub const PERCENT: u64 = 10000;

/// Lamports a vault keeps for its own rent; they never count as traded SOL.
pub const VAULT_RENT_LAMPORTS: u64 = 1746960;

/// Base units in one whole token (six decimals).
pub const TOKEN_UNIT: u64 = 1000000;

/// A token's SOL target must exceed this many lamports (10 SOL).
pub const MIN_SOL_TARGET: u128 = 10000000000;

/// The supply minted for every token unless the configuration changes it:
/// 10^11 whole tokens of 10^6 base units.
pub const DEFAULT_INITIAL_TOKEN_RESERVE: u64 = 100_000_000_000 * 1_000_000;

} // verus!
