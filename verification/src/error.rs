use vstd::prelude::*;

verus! {

/// Errors that an instruction returns: those of the program's own rules, and
/// those of the account checks that the runtime makes before the rules (an
/// account that must match the configuration, one that must sign, and one
/// that must not exist yet).
#[derive(Clone, Copy, Debug, PartialEq, Eq, Structural)]
pub enum ErrorMessage {
    /// "Insufficient fund"
    InsufficientFund,
    /// "Invalid amount sol"
    InvalidAmountSol,
    /// "Insufficient token"
    InsufficientToken,
    /// "Trading: completed, cannot buy"
    TradingEnd,
    /// "Trading: not completed"
    TradingNotEnd,
    /// "Trading: Invalid amount of token available to trade"
    InvalidAmountToken,
    /// "Trading: Invalid amount of sol available to trade"
    InvalidAmountSolTrade,
    /// "Fee cannot over 100"
    InvalidFee,
    /// "Withdraw: Creator invalid"
    InvalidCreator,
    /// "Buy: Exceed max token can hold"
    ExceedMaximum,
    /// "Creator 1st buy: already bought"
    BuyOnce,
    /// "Sol target must be larger than 10 Sol"
    InvalidSolTarget,
    /// The holder record does not belong to the seller.
    InvalidPda,
    /// An account differs from the one the configuration names.
    ConstraintHasOne,
    /// An account that must sign the instruction did not.
    AccountNotSigner,
    /// An account that the instruction creates exists already.
    AccountAlreadyInUse,
}

} // verus!
