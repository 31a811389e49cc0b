use vstd::prelude::*;

verus! {

/// The accounts that an instruction moves lamports or tokens between.
#[derive(Clone, Copy, Debug, PartialEq, Eq, Structural)]
pub enum Role {
    /// The signer who trades: buyer, seller or creator.
    User,
    /// The user's token account for the traded mint.
    UserTokens,
    /// The account that collects the fund fee.
    Fund,
    /// The token's vault, which holds the traded SOL.
    Vault,
    /// The vault's token account, which holds the unsold tokens.
    VaultTokens,
    /// The liquidity operator.
    OperatorLp,
    /// The liquidity operator's token account.
    OperatorLpTokens,
    /// The account that receives the remaining share at withdrawal.
    Dev,
    /// The dev account's token account.
    DevTokens,
    /// The program's mint authority.
    MintAuthority,
    /// The account that marks that a buyer has bought a token.
    BuyerMarker,
}

/// One movement of lamports or tokens that an instruction performs, in order.
#[derive(Clone, Copy, Debug, PartialEq, Eq, Structural)]
pub enum Effect {
    /// Lamports moved by the system program; `from` signs.
    SystemTransfer { from: Role, to: Role, lamports: u64 },
    /// Lamports taken directly from an account that the program owns.
    Debit { account: Role, lamports: u64 },
    /// Lamports added directly to an account.
    Credit { account: Role, lamports: u64 },
    /// Tokens moved by the token program. The owner of `from` signs; where
    /// `vault_signs` holds, that owner is the vault, which signs with its seeds.
    TokenTransfer { from: Role, to: Role, amount: u64, vault_signs: bool },
    /// Tokens newly minted to `to`, signed by the program's mint authority.
    MintTo { to: Role, amount: u64 },
    /// A new account of `space` bytes owned by the program, at an address
    /// that signs with its seeds; `payer` funds the rent the runtime asks for
    /// it. The rent is set by the runtime, so the lamport sums below leave it
    /// out.
    CreateAccount { account: Role, payer: Role, space: u64 },
}

/// How one effect changes the lamports of `r`.
pub open spec fn lamport_delta(e: Effect, r: Role) -> int {
    match e {
        Effect::SystemTransfer { from, to, lamports } => {
            (if to == r { lamports as int } else { 0 }) - (if from == r { lamports as int } else { 0 })
        },
        Effect::Debit { account, lamports } => if account == r { -lamports } else { 0 },
        Effect::Credit { account, lamports } => if account == r { lamports as int } else { 0 },
        _ => 0,
    }
}

/// How one effect changes the token balance of `r`.
pub open spec fn token_delta(e: Effect, r: Role) -> int {
    match e {
        Effect::TokenTransfer { from, to, amount, .. } => {
            (if to == r { amount as int } else { 0 }) - (if from == r { amount as int } else { 0 })
        },
        Effect::MintTo { to, amount } => if to == r { amount as int } else { 0 },
        _ => 0,
    }
}

/// How a sequence of effects changes the lamports of `r`.
pub open spec fn net_lamports(es: Seq<Effect>, r: Role) -> int
    decreases es.len(),
{
    if es.len() == 0 {
        0
    } else {
        net_lamports(es.drop_last(), r) + lamport_delta(es.last(), r)
    }
}

/// How a sequence of effects changes the token balance of `r`.
pub open spec fn net_tokens(es: Seq<Effect>, r: Role) -> int
    decreases es.len(),
{
    if es.len() == 0 {
        0
    } else {
        net_tokens(es.drop_last(), r) + token_delta(es.last(), r)
    }
}

/// Lamports that an effect creates (credits) or destroys (debits);
/// a system transfer creates none.
pub open spec fn lamports_created_by(e: Effect) -> int {
    match e {
        Effect::Debit { lamports, .. } => -lamports,
        Effect::Credit { lamports, .. } => lamports as int,
        _ => 0,
    }
}

/// Tokens that an effect creates; only minting creates any.
pub open spec fn tokens_created_by(e: Effect) -> int {
    match e {
        Effect::MintTo { amount, .. } => amount as int,
        _ => 0,
    }
}

/// Lamports that a sequence of effects creates, summed over all accounts.
pub open spec fn lamports_created(es: Seq<Effect>) -> int
    decreases es.len(),
{
    if es.len() == 0 {
        0
    } else {
        lamports_created(es.drop_last()) + lamports_created_by(es.last())
    }
}

/// Tokens that a sequence of effects creates, summed over all accounts.
pub open spec fn tokens_created(es: Seq<Effect>) -> int
    decreases es.len(),
{
    if es.len() == 0 {
        0
    } else {
        tokens_created(es.drop_last()) + tokens_created_by(es.last())
    }
}

} // verus!
