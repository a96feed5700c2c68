//! The records that the handlers read and write, as plain values.

use crate::address::{found_view, Address};
use crate::error::{LedgerError, Rejection};
use vstd::prelude::*;

verus! {

/// The bytes that a persisted `BurnerState` takes: an 8-byte tag, then
/// the authority (32), the flag (1) and the timestamp (8).
pub const STATE_SPACE: usize = 8 + 32 + 1 + 8;

/// The bytes that a persisted `VaultAccount` takes: an 8-byte tag, then
/// the owner (32), the bump (1) and the tally (8).
pub const VAULT_SPACE: usize = 8 + 32 + 1 + 8;

/// The program-wide configuration, created once.
#[derive(Clone, Copy, Debug, PartialEq, Eq)]
pub struct BurnerState {
    /// Who administers the program.
    pub authority: Address,
    /// True once created.
    pub is_initialized: bool,
    /// When it was created, as a Unix timestamp.
    pub created_at: i64,
}

/// The record of one user's vault.
#[derive(Clone, Copy, Debug, PartialEq, Eq)]
pub struct VaultAccount {
    /// Who controls withdrawals.
    pub owner: Address,
    /// The bump that made the vault's address valid.
    pub bump: u8,
    /// A running tally of the reserve amounts routed through the vault.
    pub lamports_collected: u64,
}

/// What the token ledger records of one holding.
#[derive(Clone, Copy, Debug, PartialEq, Eq)]
pub struct TokenAccount {
    /// The asset class.
    pub mint: Address,
    /// Who controls the holding.
    pub owner: Address,
    /// The quantity held.
    pub amount: u64,
}

/// A principal whose signature the ledger has verified, with its native balance.
#[derive(Clone, Copy, Debug, PartialEq, Eq)]
pub struct Signer {
    pub key: Address,
    pub lamports: u64,
}

/// The place of the program state: an address, its native balance, and the
/// record if one has been created there.
#[derive(Clone, Copy, Debug, PartialEq, Eq)]
pub struct StateSlot {
    pub key: Address,
    pub lamports: u64,
    pub data: Option<BurnerState>,
}

/// The place of a vault: an address, its native balance, and the record if
/// one has been created there.
#[derive(Clone, Copy, Debug, PartialEq, Eq)]
pub struct VaultSlot {
    pub key: Address,
    pub lamports: u64,
    pub data: Option<VaultAccount>,
}

/// The place of a token record: an address, its native balance, and the
/// record as long as it has not been closed.
#[derive(Clone, Copy, Debug, PartialEq, Eq)]
pub struct TokenSlot {
    pub key: Address,
    pub lamports: u64,
    pub data: Option<TokenAccount>,
}

/// An asset class with its outstanding supply.
#[derive(Clone, Copy, Debug, PartialEq, Eq)]
pub struct Mint {
    pub key: Address,
    pub supply: u64,
}

/// The part of `balance` that lies above `floor`, and zero where there is none.
pub open spec fn surplus(balance: u64, floor: u64) -> u64 {
    if balance > floor {
        (balance - floor) as u64
    } else {
        0
    }
}

/// `tally` increased by `amount`, stopping at the largest value.
pub open spec fn tally_after(tally: u64, amount: u64) -> u64 {
    if tally + amount > u64::MAX {
        u64::MAX
    } else {
        (tally + amount) as u64
    }
}

/// Why a record cannot be created at a place, if it cannot: no address was
/// found for it; the place is not at the found address; the place holds a
/// record already; or the payer lacks what the place is short of `reserve`.
pub open spec fn creation_rejection(
    key: Seq<u8>,
    occupied: bool,
    lamports: u64,
    payer_lamports: u64,
    reserve: u64,
    found: Option<(Seq<u8>, u8)>,
) -> Option<Rejection> {
    if found is None {
        Some(Rejection::Ledger(LedgerError::NoViableBump))
    } else if key != (found->0).0 {
        Some(Rejection::Ledger(LedgerError::AddressMismatch))
    } else if occupied {
        Some(Rejection::Ledger(LedgerError::AddressInUse))
    } else if payer_lamports < surplus(reserve, lamports) {
        Some(Rejection::Ledger(LedgerError::InsufficientFunds))
    } else {
        None
    }
}

/// Checks that a record can be created at a place, given the address and
/// bump that were found for it, and returns the bump together with what
/// the payer owes: the part of `reserve` that the place does not hold yet.
pub fn check_creation(
    key: &Address,
    occupied: bool,
    lamports: u64,
    payer_lamports: u64,
    reserve: u64,
    found: Option<(Address, u8)>,
) -> (r: Result<(u8, u64), Rejection>)
    ensures
        match creation_rejection(
            key@,
            occupied,
            lamports,
            payer_lamports,
            reserve,
            found_view(found),
        ) {
            Some(e) => r == Err::<(u8, u64), Rejection>(e),
            None => r == Ok::<(u8, u64), Rejection>(((found->0).1, surplus(reserve, lamports))),
        },
{
    let (address, bump) = match found {
        Some(pair) => pair,
        None => {
            return Err(Rejection::Ledger(LedgerError::NoViableBump));
        },
    };
    if *key != address {
        return Err(Rejection::Ledger(LedgerError::AddressMismatch));
    }
    if occupied {
        return Err(Rejection::Ledger(LedgerError::AddressInUse));
    }
    let owed: u64 = reserve.saturating_sub(lamports);
    if payer_lamports < owed {
        return Err(Rejection::Ledger(LedgerError::InsufficientFunds));
    }
    Ok((bump, owed))
}

} // verus!
