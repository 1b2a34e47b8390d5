//! Errors reported by every operation of the program.
use vstd::prelude::*;

verus! {

/// Why an operation was refused. Every error aborts the whole enclosing
/// transaction, so no partial write is ever kept.
#[derive(Clone, Copy, Debug, PartialEq, Eq, Structural)]
pub enum MultiHubSwapError {
    /// The instruction data is empty, has an unknown opcode or a short payload.
    InvalidInstruction,
    /// A supplied account is not the one derived for its role, or a record is malformed.
    InvalidAccountData,
    /// A required signature is absent.
    MissingSignature,
    /// A checked arithmetic step would leave the range of its type.
    ArithmeticOverflow,
    /// A balance is too low for the requested operation.
    InsufficientFunds,
    /// The claim cooldown has not elapsed: `elapsed` seconds have passed since the
    /// last claim and `remaining` more are needed.
    TooEarly { elapsed: i128, remaining: i128 },
    /// The ledger holds no contribution, so no reward accrues.
    NothingToClaim,
    /// The ledger holds no contribution to withdraw.
    NothingToWithdraw,
    /// A record buffer is shorter than the record's layout.
    BufferTooSmall,
    /// The caller is not the principal the operation requires.
    Unauthorized,
    /// A rate parameter is above its bound.
    InvalidParameter,
    /// The program state record already exists.
    AlreadyInitialized,
    /// A swap would deliver less than the caller's minimum.
    SlippageExceeded,
    /// No address off the curve exists for the given seeds.
    AddressDerivationFailed,
}

/// The numeric code of each error, in declaration order.
pub open spec fn error_code(e: MultiHubSwapError) -> u32 {
    match e {
        MultiHubSwapError::InvalidInstruction => 0,
        MultiHubSwapError::InvalidAccountData => 1,
        MultiHubSwapError::MissingSignature => 2,
        MultiHubSwapError::ArithmeticOverflow => 3,
        MultiHubSwapError::InsufficientFunds => 4,
        MultiHubSwapError::TooEarly { .. } => 5,
        MultiHubSwapError::NothingToClaim => 6,
        MultiHubSwapError::NothingToWithdraw => 7,
        MultiHubSwapError::BufferTooSmall => 8,
        MultiHubSwapError::Unauthorized => 9,
        MultiHubSwapError::InvalidParameter => 10,
        MultiHubSwapError::AlreadyInitialized => 11,
        MultiHubSwapError::SlippageExceeded => 12,
        MultiHubSwapError::AddressDerivationFailed => 13,
    }
}

impl MultiHubSwapError {
    /// The numeric code under which the error is reported to the host.
    pub fn code(&self) -> (r: u32)
        ensures
            r == error_code(*self),
    {
        match self {
            MultiHubSwapError::InvalidInstruction => 0,
            MultiHubSwapError::InvalidAccountData => 1,
            MultiHubSwapError::MissingSignature => 2,
            MultiHubSwapError::ArithmeticOverflow => 3,
            MultiHubSwapError::InsufficientFunds => 4,
            MultiHubSwapError::TooEarly { .. } => 5,
            MultiHubSwapError::NothingToClaim => 6,
            MultiHubSwapError::NothingToWithdraw => 7,
            MultiHubSwapError::BufferTooSmall => 8,
            MultiHubSwapError::Unauthorized => 9,
            MultiHubSwapError::InvalidParameter => 10,
            MultiHubSwapError::AlreadyInitialized => 11,
            MultiHubSwapError::SlippageExceeded => 12,
            MultiHubSwapError::AddressDerivationFailed => 13,
        }
    }
}

} // verus!
