//! Errors of the two protocols.
use vstd::prelude::*;

verus! {

/// Which identity recorded on an escrow record differs from the account
/// passed in its role.
#[derive(Clone, Copy, Debug, PartialEq, Eq, Structural)]
pub enum RecordField {
    Originator,
    AssetA,
    AssetB,
}

/// Why an instruction was rejected. A rejected instruction has no effect.
#[derive(Clone, Copy, Debug, PartialEq, Eq, Structural)]
pub enum ProtocolError {
    /// Fewer or more accounts than the instruction takes.
    NotEnoughAccountKeys,
    /// The caller did not sign.
    MissingSigner,
    /// An account is not owned by the program its role requires.
    WrongAccountOwner,
    /// A record identity differs from the account passed in that role.
    IdentityMismatch(RecordField),
    /// A token account is not of the mint or authority its role requires.
    TokenAccountMismatch,
    /// A presented custody address is not the one its seeds derive.
    AddressDerivationMismatch,
    /// The instruction data is malformed.
    InvalidInstructionData,
    /// An amount of zero.
    ZeroOrInvalidAmount,
    /// The source holds less than the transfer moves.
    InsufficientBalance,
    /// A deposit that would not leave the vault above the existence minimum.
    BelowMinimumExistenceBalance,
    /// A vault that must be empty holds lamports.
    VaultNotEmpty,
    /// A vault that must be funded holds nothing.
    VaultEmpty,
    /// The escrow record does not exist (it was never made, or was closed).
    AccountNotInitialized,
    /// A credited balance would exceed the largest amount.
    ArithmeticOverflow,
}

} // verus!
