//! Custodial vaults and the closing of token records, as checked state
//! transitions on plain account values.

pub mod accounts;
pub mod address;
pub mod error;
pub mod initialize;
pub mod token;
pub mod vault;

pub use accounts::{
    BurnerState, Mint, Signer, StateSlot, TokenAccount, TokenSlot, VaultAccount, VaultSlot,
};
pub use address::Address;
pub use error::{BurnerError, LedgerError, Rejection};
pub use initialize::{initialize, initialize_at, Initialize};
pub use token::{
    burn_and_close_token_account, burn_and_close_token_account_at, close_token_account,
    close_token_account_at, validate_token_account, BurnAndCloseTokenAccount, CloseTokenAccount,
    LedgerCall, TokenReport, ValidateTokenAccount,
};
pub use vault::{
    create_vault, create_vault_at, withdraw_vault, withdraw_vault_at, CreateVault, WithdrawVault,
};
