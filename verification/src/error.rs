use vstd::prelude::*;

verus! {

/// The error taxonomy shared by the token and factory handlers.
///
/// Every failure path is a typed error; handlers never panic.  `Std` stands
/// for a host storage lookup that found no record (the factory returns it
/// for an unknown token address).
#[derive(Clone, Copy, Debug, PartialEq, Eq, Structural)]
pub enum ContractError {
    /// The caller is not the required principal.
    Unauthorized,
    /// A debit asked for more than the account holds.
    InsufficientBalance,
    /// A delegated transfer asked for more than was granted.
    InsufficientAllowance,
    /// A counter update would leave the 128-bit range.
    ArithmeticOverflow,
    /// Zero was given where a positive amount is required.
    InvalidAmount,
    /// Minting is switched off.
    MintDisabled,
    /// The per-account mint cooldown has not yet elapsed.
    MintOnCooldown,
    /// Governance mutation was attempted after the irreversible lock.
    ContractLocked,
    /// A host storage record was missing.
    Std,
    /// The message variant is not handled.
    Unsupported,
}

} // verus!
