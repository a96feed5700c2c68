//! The failure signals shared by every handler.

use vstd::prelude::*;

verus! {

/// The failures that the handlers raise on their own account.
#[derive(Clone, Copy, Debug, PartialEq, Eq, Structural)]
pub enum BurnerError {
    /// The vault's recorded owner is not the signer.
    InvalidOwner,
    /// The token record's recorded owner is not the signer.
    UnauthorizedAccount,
    /// A plain close was attempted on a record that still holds tokens.
    AccountNotEmpty,
}

/// The failures that come from the ledger underneath the handlers.
#[derive(Clone, Copy, Debug, PartialEq, Eq, Structural)]
pub enum LedgerError {
    /// A record was to be created at an address that already holds one.
    AddressInUse,
    /// The address supplied for a record is not the one derived for it.
    AddressMismatch,
    /// No bump yields an address for the seeds.
    NoViableBump,
    /// A record that the operation names does not exist.
    AccountMissing,
    /// The payer cannot fund the reserve of the record to be created.
    InsufficientFunds,
    /// A native balance would exceed the largest amount that can be counted.
    BalanceOverflow,
    /// The token ledger refuses the delegated request.
    DelegatedCallFailed,
}

/// Why an operation was rejected.
#[derive(Clone, Copy, Debug, PartialEq, Eq, Structural)]
pub enum Rejection {
    Program(BurnerError),
    Ledger(LedgerError),
}

impl BurnerError {
    /// The message that goes with the failure.
    pub fn message(&self) -> (m: &'static str)
        ensures
            m@ == match *self {
                BurnerError::InvalidOwner => "Invalid owner"@,
                BurnerError::UnauthorizedAccount => "Token account not owned by user"@,
                BurnerError::AccountNotEmpty => "Token account is not empty"@,
            },
    {
        match self {
            BurnerError::InvalidOwner => "Invalid owner",
            BurnerError::UnauthorizedAccount => "Token account not owned by user",
            BurnerError::AccountNotEmpty => "Token account is not empty",
        }
    }
}

} // verus!
