use anchor_lang::prelude::Pubkey;
use plinko_burner::address::find_vault_address;
use plinko_burner::{
    burn_and_close_token_account, burn_and_close_token_account_at, close_token_account,
    close_token_account_at, create_vault, validate_token_account, Address, BurnAndCloseTokenAccount,
    BurnerError, CloseTokenAccount, CreateVault, LedgerCall, LedgerError, Mint, Rejection, Signer,
    TokenAccount, TokenReport, TokenSlot, ValidateTokenAccount, VaultAccount, VaultSlot,
};
use std::str::FromStr;

const VAULT_RESERVE: u64 = 1_231_920;
const TOKEN_RESERVE: u64 = 2_039_280;

fn program_id() -> Address {
    let key = Pubkey::from_str("Cz4m7mpWX6nSUZxfKp2vjnHgYdF5rx9fmEwe9fWrabXd").unwrap();
    Address::new(key.to_bytes())
}

fn user_u() -> Address {
    Address::new([11u8; 32])
}

fn user_u2() -> Address {
    Address::new([22u8; 32])
}

fn mint_m() -> Address {
    Address::new([33u8; 32])
}

fn record_key() -> Address {
    Address::new([44u8; 32])
}

fn vault_of(user: Address) -> VaultSlot {
    let (key, _) = find_vault_address(&program_id(), &user).unwrap();
    let mut ctx = CreateVault {
        program_id: program_id(),
        user: Signer { key: user, lamports: 10_000_000 },
        vault: VaultSlot { key, lamports: 0, data: None },
    };
    create_vault(&mut ctx, VAULT_RESERVE).unwrap();
    ctx.vault
}

fn record(owner: Address, amount: u64) -> TokenSlot {
    TokenSlot {
        key: record_key(),
        lamports: TOKEN_RESERVE,
        data: Some(TokenAccount { mint: mint_m(), owner, amount }),
    }
}

fn closing(user: Address, token_account: TokenSlot) -> CloseTokenAccount {
    CloseTokenAccount {
        program_id: program_id(),
        user: Signer { key: user, lamports: 1 },
        token_account,
        vault: vault_of(user),
    }
}

fn burning(user: Address, token_account: TokenSlot, supply: u64) -> BurnAndCloseTokenAccount {
    BurnAndCloseTokenAccount {
        program_id: program_id(),
        user: Signer { key: user, lamports: 1 },
        token_account,
        mint: Mint { key: mint_m(), supply },
        vault: vault_of(user),
    }
}

#[test]
fn validate_reports_a_record_with_tokens() {
    let ctx = ValidateTokenAccount {
        user: Signer { key: user_u(), lamports: 0 },
        token_account: record(user_u(), 50),
    };
    let before = ctx;
    assert_eq!(
        validate_token_account(&ctx),
        Ok(TokenReport { mint: mint_m(), amount: 50, owner: user_u(), is_empty: false })
    );
    assert_eq!(ctx, before);
}

#[test]
fn validate_reports_an_empty_record() {
    let ctx = ValidateTokenAccount {
        user: Signer { key: user_u(), lamports: 0 },
        token_account: record(user_u(), 0),
    };
    assert_eq!(
        validate_token_account(&ctx),
        Ok(TokenReport { mint: mint_m(), amount: 0, owner: user_u(), is_empty: true })
    );
}

#[test]
fn validate_rejects_a_record_of_another_owner() {
    let ctx = ValidateTokenAccount {
        user: Signer { key: user_u(), lamports: 0 },
        token_account: record(user_u2(), 50),
    };
    assert_eq!(
        validate_token_account(&ctx),
        Err(Rejection::Program(BurnerError::UnauthorizedAccount))
    );
}

#[test]
fn validate_rejects_a_closed_record() {
    let ctx = ValidateTokenAccount {
        user: Signer { key: user_u(), lamports: 0 },
        token_account: TokenSlot { key: record_key(), lamports: 0, data: None },
    };
    assert_eq!(validate_token_account(&ctx), Err(Rejection::Ledger(LedgerError::AccountMissing)));
}

#[test]
fn close_destroys_an_empty_record_and_credits_the_vault() {
    let mut ctx = closing(user_u(), record(user_u(), 0));
    let vault_before = ctx.vault;
    let calls = close_token_account(&mut ctx, TOKEN_RESERVE).unwrap();
    assert_eq!(
        calls,
        vec![LedgerCall::CloseAccount {
            account: record_key(),
            destination: vault_before.key,
            authority: user_u(),
        }]
    );
    assert_eq!(ctx.token_account, TokenSlot { key: record_key(), lamports: 0, data: None });
    assert_eq!(ctx.vault.lamports, VAULT_RESERVE + TOKEN_RESERVE);
    assert_eq!(
        ctx.vault.data,
        Some(VaultAccount { lamports_collected: TOKEN_RESERVE, ..vault_before.data.unwrap() })
    );
    assert_eq!(ctx.user, Signer { key: user_u(), lamports: 1 });
}

#[test]
fn close_by_another_user_is_unauthorized_and_changes_nothing() {
    let mut ctx = closing(user_u(), record(user_u2(), 0));
    let before = ctx;
    assert_eq!(
        close_token_account(&mut ctx, TOKEN_RESERVE),
        Err(Rejection::Program(BurnerError::UnauthorizedAccount))
    );
    assert_eq!(ctx, before);
}

#[test]
fn close_of_a_record_with_tokens_is_not_empty() {
    let mut ctx = closing(user_u(), record(user_u(), 1));
    let before = ctx;
    assert_eq!(
        close_token_account(&mut ctx, TOKEN_RESERVE),
        Err(Rejection::Program(BurnerError::AccountNotEmpty))
    );
    assert_eq!(ctx, before);
}

#[test]
fn close_checks_the_owner_before_the_amount() {
    let mut ctx = closing(user_u(), record(user_u2(), 5));
    assert_eq!(
        close_token_account(&mut ctx, TOKEN_RESERVE),
        Err(Rejection::Program(BurnerError::UnauthorizedAccount))
    );
}

#[test]
fn close_twice_finds_no_record_the_second_time() {
    let mut ctx = closing(user_u(), record(user_u(), 0));
    assert!(close_token_account(&mut ctx, TOKEN_RESERVE).is_ok());
    let after_first = ctx;
    assert_eq!(
        close_token_account(&mut ctx, TOKEN_RESERVE),
        Err(Rejection::Ledger(LedgerError::AccountMissing))
    );
    assert_eq!(ctx, after_first);
}

#[test]
fn close_into_a_vault_of_another_owner_is_invalid_owner() {
    let mut ctx = closing(user_u(), record(user_u(), 0));
    ctx.vault.data = Some(VaultAccount { owner: user_u2(), ..ctx.vault.data.unwrap() });
    let before = ctx;
    assert_eq!(
        close_token_account(&mut ctx, TOKEN_RESERVE),
        Err(Rejection::Program(BurnerError::InvalidOwner))
    );
    assert_eq!(ctx, before);
}

#[test]
fn close_into_another_users_vault_is_an_address_mismatch() {
    let mut ctx = closing(user_u(), record(user_u(), 0));
    ctx.vault = vault_of(user_u2());
    assert_eq!(
        close_token_account(&mut ctx, TOKEN_RESERVE),
        Err(Rejection::Ledger(LedgerError::AddressMismatch))
    );
}

#[test]
fn close_without_a_vault_is_account_missing() {
    let mut ctx = closing(user_u(), record(user_u(), 0));
    ctx.vault.data = None;
    assert_eq!(
        close_token_account(&mut ctx, TOKEN_RESERVE),
        Err(Rejection::Ledger(LedgerError::AccountMissing))
    );
}

#[test]
fn close_that_would_overflow_the_vault_is_refused() {
    let mut ctx = closing(user_u(), record(user_u(), 0));
    ctx.vault.lamports = u64::MAX - TOKEN_RESERVE + 1;
    let before = ctx;
    assert_eq!(
        close_token_account(&mut ctx, TOKEN_RESERVE),
        Err(Rejection::Ledger(LedgerError::DelegatedCallFailed))
    );
    assert_eq!(ctx, before);
    ctx.vault.lamports = u64::MAX - TOKEN_RESERVE;
    assert!(close_token_account(&mut ctx, TOKEN_RESERVE).is_ok());
    assert_eq!(ctx.vault.lamports, u64::MAX);
}

#[test]
fn close_tally_saturates() {
    let mut ctx = closing(user_u(), record(user_u(), 0));
    ctx.vault.data =
        Some(VaultAccount { lamports_collected: u64::MAX - 1, ..ctx.vault.data.unwrap() });
    assert!(close_token_account(&mut ctx, TOKEN_RESERVE).is_ok());
    assert_eq!(ctx.vault.data.unwrap().lamports_collected, u64::MAX);
}

#[test]
fn close_counts_the_reserve_not_the_balance_reclaimed() {
    let mut slot = record(user_u(), 0);
    slot.lamports = 5_000_000;
    let mut ctx = closing(user_u(), slot);
    assert!(close_token_account(&mut ctx, TOKEN_RESERVE).is_ok());
    assert_eq!(ctx.vault.lamports, VAULT_RESERVE + 5_000_000);
    assert_eq!(ctx.vault.data.unwrap().lamports_collected, TOKEN_RESERVE);
}

#[test]
fn close_at_takes_the_derived_address_as_given() {
    let vault_key = Address::new([99u8; 32]);
    let mut ctx = CloseTokenAccount {
        program_id: program_id(),
        user: Signer { key: user_u(), lamports: 0 },
        token_account: record(user_u(), 0),
        vault: VaultSlot {
            key: vault_key,
            lamports: 10,
            data: Some(VaultAccount { owner: user_u(), bump: 1, lamports_collected: 4 }),
        },
    };
    assert_eq!(
        close_token_account_at(&mut ctx, 7, None),
        Err(Rejection::Ledger(LedgerError::AddressMismatch))
    );
    let calls = close_token_account_at(&mut ctx, 7, Some(vault_key)).unwrap();
    assert_eq!(calls.len(), 1);
    assert_eq!(ctx.vault.lamports, 10 + TOKEN_RESERVE);
    assert_eq!(ctx.vault.data.unwrap().lamports_collected, 11);
}

#[test]
fn burn_and_close_burns_fifty_and_closes() {
    let mut ctx = burning(user_u(), record(user_u(), 50), 1_000);
    let vault_before = ctx.vault;
    let calls = burn_and_close_token_account(&mut ctx, TOKEN_RESERVE).unwrap();
    assert_eq!(
        calls,
        vec![
            LedgerCall::Burn {
                mint: mint_m(),
                from: record_key(),
                authority: user_u(),
                amount: 50,
            },
            LedgerCall::CloseAccount {
                account: record_key(),
                destination: vault_before.key,
                authority: user_u(),
            },
        ]
    );
    assert_eq!(ctx.mint, Mint { key: mint_m(), supply: 950 });
    assert_eq!(ctx.token_account, TokenSlot { key: record_key(), lamports: 0, data: None });
    assert_eq!(ctx.vault.lamports, vault_before.lamports + TOKEN_RESERVE);
    assert_eq!(ctx.vault.data.unwrap().lamports_collected, TOKEN_RESERVE);
    assert_eq!(ctx.vault.data.unwrap().owner, user_u());
}

#[test]
fn burn_and_close_of_an_empty_record_only_closes() {
    let mut ctx = burning(user_u(), record(user_u(), 0), 1_000);
    let vault_key = ctx.vault.key;
    let calls = burn_and_close_token_account(&mut ctx, TOKEN_RESERVE).unwrap();
    assert_eq!(
        calls,
        vec![LedgerCall::CloseAccount {
            account: record_key(),
            destination: vault_key,
            authority: user_u(),
        }]
    );
    assert_eq!(ctx.mint.supply, 1_000);
    assert_eq!(ctx.token_account.data, None);
}

#[test]
fn burn_and_close_of_an_empty_record_ignores_the_mint() {
    let mut ctx = burning(user_u(), record(user_u(), 0), 0);
    ctx.mint.key = Address::new([77u8; 32]);
    assert!(burn_and_close_token_account(&mut ctx, TOKEN_RESERVE).is_ok());
    assert_eq!(ctx.mint.supply, 0);
}

#[test]
fn burn_and_close_by_another_user_is_unauthorized() {
    let mut ctx = burning(user_u(), record(user_u2(), 50), 1_000);
    let before = ctx;
    assert_eq!(
        burn_and_close_token_account(&mut ctx, TOKEN_RESERVE),
        Err(Rejection::Program(BurnerError::UnauthorizedAccount))
    );
    assert_eq!(ctx, before);
}

#[test]
fn burn_and_close_with_the_wrong_mint_is_refused() {
    let mut ctx = burning(user_u(), record(user_u(), 50), 1_000);
    ctx.mint.key = Address::new([77u8; 32]);
    let before = ctx;
    assert_eq!(
        burn_and_close_token_account(&mut ctx, TOKEN_RESERVE),
        Err(Rejection::Ledger(LedgerError::DelegatedCallFailed))
    );
    assert_eq!(ctx, before);
}

#[test]
fn burn_and_close_beyond_the_supply_is_refused() {
    let mut ctx = burning(user_u(), record(user_u(), 50), 49);
    let before = ctx;
    assert_eq!(
        burn_and_close_token_account(&mut ctx, TOKEN_RESERVE),
        Err(Rejection::Ledger(LedgerError::DelegatedCallFailed))
    );
    assert_eq!(ctx, before);
    ctx.mint.supply = 50;
    assert!(burn_and_close_token_account(&mut ctx, TOKEN_RESERVE).is_ok());
    assert_eq!(ctx.mint.supply, 0);
}

#[test]
fn burn_and_close_into_a_vault_of_another_owner_is_invalid_owner() {
    let mut ctx = burning(user_u(), record(user_u(), 50), 1_000);
    ctx.vault.data = Some(VaultAccount { owner: user_u2(), ..ctx.vault.data.unwrap() });
    assert_eq!(
        burn_and_close_token_account(&mut ctx, TOKEN_RESERVE),
        Err(Rejection::Program(BurnerError::InvalidOwner))
    );
}

#[test]
fn burn_and_close_twice_finds_no_record_the_second_time() {
    let mut ctx = burning(user_u(), record(user_u(), 50), 1_000);
    assert!(burn_and_close_token_account(&mut ctx, TOKEN_RESERVE).is_ok());
    let after_first = ctx;
    assert_eq!(
        burn_and_close_token_account(&mut ctx, TOKEN_RESERVE),
        Err(Rejection::Ledger(LedgerError::AccountMissing))
    );
    assert_eq!(ctx, after_first);
}

#[test]
fn burn_and_close_that_would_overflow_the_vault_is_refused() {
    let mut ctx = burning(user_u(), record(user_u(), 50), 1_000);
    ctx.vault.lamports = u64::MAX;
    let before = ctx;
    assert_eq!(
        burn_and_close_token_account(&mut ctx, TOKEN_RESERVE),
        Err(Rejection::Ledger(LedgerError::DelegatedCallFailed))
    );
    assert_eq!(ctx, before);
}

#[test]
fn burn_and_close_at_takes_the_derived_address_as_given() {
    let vault_key = Address::new([99u8; 32]);
    let mut ctx = BurnAndCloseTokenAccount {
        program_id: program_id(),
        user: Signer { key: user_u(), lamports: 0 },
        token_account: record(user_u(), u64::MAX),
        mint: Mint { key: mint_m(), supply: u64::MAX },
        vault: VaultSlot {
            key: vault_key,
            lamports: 0,
            data: Some(VaultAccount { owner: user_u(), bump: 1, lamports_collected: u64::MAX }),
        },
    };
    assert_eq!(
        burn_and_close_token_account_at(&mut ctx, 7, Some(user_u())),
        Err(Rejection::Ledger(LedgerError::AddressMismatch))
    );
    let calls = burn_and_close_token_account_at(&mut ctx, 7, Some(vault_key)).unwrap();
    assert_eq!(calls.len(), 2);
    assert_eq!(ctx.mint.supply, 0);
    assert_eq!(ctx.vault.lamports, TOKEN_RESERVE);
    assert_eq!(ctx.vault.data.unwrap().lamports_collected, u64::MAX);
}
