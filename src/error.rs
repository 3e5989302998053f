use vstd::prelude::*;

verus! {

/// Every way an operation on a vault can be refused. A refused operation
/// leaves every record it was given as it was.
#[derive(Clone, Copy, Debug, PartialEq, Eq, Structural)]
pub enum ErrorCode {
    /// The caller may not perform this operation on the vault.
    Unauthorized,
    /// The deposit is not a whole multiple of the vault's minimum deposit.
    InvalidMultiple,
    /// The vault number does not name the vault handed in, or no vault with
    /// that number has been created yet.
    IncorrectCount,
    /// Funds have been collected, so the configuration is frozen.
    NotUpdatable,
    /// A new vault's start or end lies at or before the current time.
    InvalidTimeInput,
    /// The (new) start of the vault lies at or before the current time.
    InvalidStartTimeInput,
    /// The end of the vault does not lie after its start.
    InvalidEndTimeInput,
    /// A new vault must be given all six configuration fields.
    MissingParams,
    /// The deposit would take the vault past its capacity.
    AmountExceedsCapacity,
    /// The funding window has closed: the vault has started.
    VaultClosed,
    /// The vault has not matured yet (or its grace period has not elapsed).
    VaultNotReady,
    /// The asset named is not the vault's base asset.
    InvalidMint,
    /// A running total would overflow.
    Overflow,
    /// The depositor holds no position in this vault (never deposited, or
    /// already withdrew).
    PositionNotFound,
}

} // verus!
