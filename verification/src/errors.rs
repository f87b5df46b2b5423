//! Typed failures surfaced by each operation.

use vstd::prelude::*;

verus! {

/// Failures of the transfer pass-through.
#[derive(Clone, Copy, Debug, PartialEq, Eq, Structural)]
pub enum TransferTokenErrors {
    /// The source balance is smaller than the requested amount.
    InsufficientBalance,
    /// The requested amount is zero.
    InvalidTransferAmount,
}

/// Failures of mint-denomination parameter validation.
#[derive(Clone, Copy, Debug, PartialEq, Eq, Structural)]
pub enum InitMintErrors {
    /// The requested supply exceeds the issuable maximum.
    SupplyTooLarge,
    /// The display name is longer than 32 characters.
    NameTooLong,
    /// The symbol is longer than 10 characters.
    SymbolTooLong,
    /// The named mint account is not the one being initialized.
    MintMismatch,
}

/// Failures of the mint gate.
#[derive(Clone, Copy, Debug, PartialEq, Eq, Structural)]
pub enum MintTokenErrors {
    /// The caller is not the record's stored authority.
    Unauthorized,
    /// The amount exceeds the fixed per-transaction cap.
    ExceedsMaxMintPerTransaction,
    /// Minting the amount would push the cumulative mint total past
    /// the cumulative burn total.
    ExceedsBurnedAmount,
}

/// Failures of the burn recorder.
#[derive(Clone, Copy, Debug, PartialEq, Eq, Structural)]
pub enum BurnTokenErrors {
    /// The requested amount is zero.
    InvalidBurnAmount,
    /// Recording the amount would overflow the 64-bit burn total.
    Overflow,
}

/// Failures of the foreign-address registry and the metadata channel.
#[derive(Clone, Copy, Debug, PartialEq, Eq, Structural)]
pub enum CustomError {
    /// The caller is not the record's stored authority.
    Unauthorized,
    /// The address is not exactly 42 characters long.
    InvalidPolygonAddress,
}

} // verus!
